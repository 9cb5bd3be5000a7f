use wp_linux::cursor::{CursorForwarder, CursorState};
use wp_linux::pixfmt::{
    convert_rgba, detect, mask_shift, NativeFormat, PixmapFormat, ScreenInfo, VisualInfo,
};
use wp_linux::query::{monitor_of, monitor_query, path_of, url_decode, url_encode};
use wp_linux::randr::{active_outputs, wanted_crtc, CrtcInfo, OutputGeometry, OutputInfo};
use wp_linux::render_server::{find_double_crlf, get, parse_meta, post, read_response, Meta};
use wp_linux::session::is_x11_session;
use wp_linux::window::{
    fetch_meta, frame_request, meta_request, push_geometry, put_image_chunks, show_frame,
    show_picture, sleep_step_ms, Poller,
};

fn fmt(msb_first: bool, red_shift: u32, green_shift: u32, blue_shift: u32) -> NativeFormat {
    NativeFormat { depth: 24, msb_first, red_shift, green_shift, blue_shift }
}

#[test]
fn common_little_endian_bgrx_layout() {
    let native = fmt(false, 16, 8, 0);
    let out = convert_rgba(&native, &[10, 20, 30, 255]);
    assert_eq!(out, vec![30, 20, 10, 0]);
}

#[test]
fn big_endian_layout_puts_red_behind_the_unused_byte() {
    let native = fmt(true, 16, 8, 0);
    let out = convert_rgba(&native, &[10, 20, 30, 255, 1, 2, 3, 4, 9]);
    assert_eq!(out, vec![0, 10, 20, 30, 0, 1, 2, 3]);
}

#[test]
fn mask_shift_rejects_non_byte_aligned_masks() {
    assert_eq!(mask_shift(0xFF0000), Some(16));
    assert_eq!(mask_shift(0x00FF00), Some(8));
    assert_eq!(mask_shift(0x0000FF), Some(0));
    assert_eq!(mask_shift(0x0F0F00), None);
    assert_eq!(mask_shift(0xF0F000), None);
}

#[test]
fn mask_shift_takes_any_run_of_eight_bits() {
    assert_eq!(mask_shift(0xFF000000), Some(24));
    assert_eq!(mask_shift(0x000007F8), Some(3));
    assert_eq!(mask_shift(0), None);
    assert_eq!(mask_shift(0x1FF), None);
    assert_eq!(mask_shift(0x7F), None);
}

fn screen() -> ScreenInfo {
    ScreenInfo {
        root_visual: 33,
        root_depth: 24,
        visuals: vec![
            VisualInfo { id: 32, red_mask: 0x1F, green_mask: 0x1F, blue_mask: 0x1F },
            VisualInfo { id: 33, red_mask: 0xFF0000, green_mask: 0xFF00, blue_mask: 0xFF },
        ],
        formats: vec![
            PixmapFormat { depth: 1, bits_per_pixel: 1 },
            PixmapFormat { depth: 24, bits_per_pixel: 32 },
        ],
        msb_first: false,
    }
}

#[test]
fn detect_reads_the_root_visual() {
    let f = detect(&screen()).unwrap();
    assert_eq!((f.depth, f.msb_first), (24, false));
    assert_eq!((f.red_shift, f.green_shift, f.blue_shift), (16, 8, 0));
}

#[test]
fn detect_says_what_is_not_supported() {
    let mut s = screen();
    s.root_visual = 99;
    assert_eq!(detect(&s).unwrap_err(), "root visual not found in Setup's allowed_depths");

    let mut s = screen();
    s.root_depth = 30;
    assert_eq!(detect(&s).unwrap_err(), "no pixmap format advertised for depth 30");

    let mut s = screen();
    s.formats[1].bits_per_pixel = 16;
    assert_eq!(
        detect(&s).unwrap_err(),
        "unsupported bits_per_pixel 16 for the root visual (only 24/32 are supported)"
    );

    let mut s = screen();
    s.visuals[1].red_mask = 0x7C00;
    assert_eq!(detect(&s).unwrap_err(), "red_mask is not a contiguous 8-bit field");
    let mut s = screen();
    s.visuals[1].green_mask = 0x3E0;
    assert_eq!(detect(&s).unwrap_err(), "green_mask is not a contiguous 8-bit field");
    let mut s = screen();
    s.visuals[1].blue_mask = 0x1F;
    assert_eq!(detect(&s).unwrap_err(), "blue_mask is not a contiguous 8-bit field");
}

#[test]
fn channels_of_a_converted_pixel_read_back() {
    let f = fmt(false, 3, 20, 11);
    let out = convert_rgba(&f, &[0xAB, 0xCD, 0xEF, 0]);
    let word = u32::from_le_bytes([out[0], out[1], out[2], out[3]]);
    assert_eq!((word >> 3) & 0xFF, 0xAB);
    assert_eq!((word >> 20) & 0xFF, 0xCD);
    assert_eq!((word >> 11) & 0xFF, 0xEF);
}

fn output(connected: bool, crtc: u32, name: &[u8]) -> Option<OutputInfo> {
    Some(OutputInfo { connected, crtc, name: name.to_vec() })
}

fn crtc(width: u16, height: u16) -> Option<CrtcInfo> {
    Some(CrtcInfo { x: -5, y: 7, width, height })
}

#[test]
fn only_driven_outputs_are_monitors() {
    let replies = vec![
        (output(true, 1, b"DP-1"), crtc(1920, 1080)),
        (output(false, 1, b"DP-2"), crtc(1920, 1080)),
        (output(true, 0, b"DP-3"), crtc(1920, 1080)),
        (None, crtc(1920, 1080)),
        (output(true, 1, b"DP-4"), None),
        (output(true, 1, b"DP-5"), crtc(0, 1080)),
        (output(true, 1, b"DP-6"), crtc(1920, 0)),
        (output(true, 4, b"bad\xff"), crtc(10, 20)),
    ];
    let monitors = active_outputs(&replies);
    assert_eq!(monitors.len(), 2);
    assert_eq!(monitors[0].name, "DP-1");
    assert_eq!((monitors[0].x, monitors[0].y), (-5, 7));
    assert_eq!((monitors[0].width, monitors[0].height), (1920, 1080));
    assert_eq!(monitors[1].name, "bad\u{fffd}");
    assert_eq!(wanted_crtc(&replies[0].0), Some(1));
    assert_eq!(wanted_crtc(&replies[1].0), None);
    assert_eq!(wanted_crtc(&replies[2].0), None);
    assert_eq!(wanted_crtc(&replies[3].0), None);
}

#[test]
fn the_session_type_goes_before_the_displays() {
    let some = |s: &str| Some(s.to_string());
    assert!(is_x11_session(&some("x11"), true, false));
    assert!(!is_x11_session(&some("wayland"), false, true));
    assert!(is_x11_session(&some("tty"), false, true));
    assert!(!is_x11_session(&some("tty"), true, true));
    assert!(is_x11_session(&None, false, true));
    assert!(!is_x11_session(&None, true, true));
    assert!(!is_x11_session(&None, false, false));
}

#[test]
fn parses_a_real_meta_response() {
    let json = r#"{"ready":true,"frame_id":42,"needs_cursor":false,"fps":30,"has_geometry":true}"#;
    let meta = parse_meta(json).expect("should parse");
    assert!(meta.ready);
    assert_eq!(meta.frame_id, 42);
    assert_eq!(meta.fps, 30);
    assert!(meta.has_geometry);
}

#[test]
fn not_ready_yet_response() {
    let json =
        r#"{"ready":false,"frame_id":0,"needs_cursor":false,"fps":0,"has_geometry":false}"#;
    let meta = parse_meta(json).expect("should parse");
    assert!(!meta.ready);
    assert!(!meta.has_geometry);
}

#[test]
fn a_meta_response_needs_all_four_fields() {
    assert!(parse_meta(r#"{"ready":true,"frame_id":42,"fps":30}"#).is_none());
    assert!(parse_meta(r#"{"ready":1,"frame_id":42,"fps":30,"has_geometry":true}"#).is_none());
    assert!(parse_meta(r#"{"ready":true,"frame_id":x,"fps":30,"has_geometry":true}"#).is_none());
    let huge = r#"{"ready":true,"frame_id":18446744073709551616,"fps":30,"has_geometry":true}"#;
    assert!(parse_meta(huge).is_none());
    let wide = r#"{"ready":true,"frame_id":1,"fps":4294967297,"has_geometry":true}"#;
    assert_eq!(parse_meta(wide).unwrap().fps, 1);
}

#[test]
fn requests_name_the_length_of_their_body_in_bytes() {
    assert_eq!(
        get("/meta?monitor=DP-1"),
        b"GET /meta?monitor=DP-1 HTTP/1.0\r\nHost: 127.0.0.1\r\nContent-Length: 0\r\n\r\n".to_vec()
    );
    assert_eq!(
        post("/project", "\u{e4}b"),
        "POST /project HTTP/1.0\r\nHost: 127.0.0.1\r\nContent-Length: 3\r\n\r\n\u{e4}b"
            .as_bytes()
            .to_vec()
    );
}

#[test]
fn a_response_gives_its_body_on_success_alone() {
    assert_eq!(find_double_crlf(b"ab\r\n\r\ncd"), Some(2));
    assert_eq!(find_double_crlf(b"ab\r\ncd"), None);
    assert_eq!(
        read_response(b"HTTP/1.1 200 OK\r\nA: b\r\n\r\n\x00\xff\r\n\r\n"),
        Some(vec![0, 255, 13, 10, 13, 10])
    );
    assert_eq!(read_response(b"HTTP/1.1 204\r\n\r\n"), Some(vec![]));
    assert_eq!(read_response(b"HTTP/1.1 +299 x\r\n\r\na"), Some(vec![97]));
    assert_eq!(read_response(b"HTTP/1.1 300 x\r\n\r\na"), None);
    assert_eq!(read_response(b"HTTP/1.1 404 Not Found\r\n\r\na"), None);
    assert_eq!(read_response(b"HTTP/1.1\r\n\r\na"), None);
    assert_eq!(read_response(b"HTTP/1.1 abc\r\n\r\na"), None);
    assert_eq!(read_response(b"HTTP/1.1 65736 x\r\n\r\na"), None);
    assert_eq!(read_response(b"HTTP/1.1 200 OK\r\nno end"), None);
    assert_eq!(read_response(b"HTTP/1.1 200 \xff\r\n\r\na"), None);
}

#[test]
fn meta_is_read_from_a_whole_response() {
    let raw = b"HTTP/1.0 200 OK\r\n\r\n{\"ready\":true,\"frame_id\":7,\"needs_cursor\":true,\"fps\":24,\"has_geometry\":false}";
    let meta = fetch_meta(raw).unwrap();
    assert_eq!((meta.ready, meta.frame_id, meta.fps, meta.has_geometry), (true, 7, 24, false));
    assert!(fetch_meta(b"HTTP/1.0 500 x\r\n\r\n{}").is_none());
    assert!(fetch_meta(b"HTTP/1.0 200 x\r\n\r\n\xff").is_none());
}

#[test]
fn names_are_written_so_that_a_query_can_hold_them() {
    assert_eq!(url_encode("eDP-1_a.b~Z9"), "eDP-1_a.b~Z9");
    assert_eq!(url_encode("a b&c"), "a%20b%26c");
    assert_eq!(url_encode("\u{e4}"), "%C3%A4");
    assert_eq!(monitor_query("HDMI A"), "monitor=HDMI%20A");
}

#[test]
fn a_request_is_understood_as_one_for_its_monitor() {
    for name in ["DP-1", "A B", "50%", "x&monitor=y", "\u{e4}?", ""] {
        let target = format!("/meta?{}", monitor_query(name));
        assert_eq!(monitor_of(&target), name);
        assert_eq!(path_of(&target), "/meta");
    }
    assert_eq!(monitor_of("/meta"), "");
    assert_eq!(monitor_of("/project?monitor=HDMI-A-1 x"), "HDMI-A-1 x");
    assert_eq!(path_of("/project?monitor=HDMI-A-1 x"), "/project");
    assert_eq!(monitor_of("/meta?t=1&monitor=DP-2&monitor=DP-3"), "DP-2");
    assert_eq!(monitor_of("/meta?monitor=a%2"), "a%2");
    assert_eq!(monitor_of("/meta?monitor=%e4"), "\u{fffd}");
    let part: Vec<char> = "%41%4a%zz".chars().collect();
    assert_eq!(url_decode(&part), b"AJ%zz".to_vec());
}

fn geometry(width: u16, height: u16) -> OutputGeometry {
    OutputGeometry { name: "DP-1".to_string(), x: -1920, y: 0, width, height }
}

#[test]
fn a_window_asks_about_its_own_monitor() {
    let q = monitor_query("DP-1");
    assert_eq!(meta_request(&q), get("/meta?monitor=DP-1"));
    assert_eq!(frame_request(&q), get("/frame?monitor=DP-1"));
    assert_eq!(
        push_geometry(&q, &geometry(2560, 1440)),
        post("/geometry?monitor=DP-1", "-1920,0,2560,1440")
    );
}

fn meta(ready: bool, frame_id: u64, fps: u32, has_geometry: bool) -> Option<Meta> {
    Some(Meta { ready, frame_id, fps, has_geometry })
}

#[test]
fn a_frame_is_fetched_once() {
    let mut p = Poller::new();
    assert_eq!((p.fps, p.last_frame_id, p.interval_ms()), (30, u64::MAX, 33));
    let s = p.step(&None);
    assert!(!s.push_geometry && !s.fetch_frame);
    let s = p.step(&meta(false, 0, 0, false));
    assert!(s.push_geometry && !s.fetch_frame);
    assert_eq!(p.fps, 30);
    let s = p.step(&meta(true, 1, 60, true));
    assert!(!s.push_geometry && s.fetch_frame);
    assert_eq!(p.interval_ms(), 16);
    assert!(!p.step(&meta(true, 1, 60, true)).fetch_frame);
    assert!(p.step(&meta(true, 2, 1000, true)).fetch_frame);
    assert_eq!(p.interval_ms(), 8);
    p.fps = 0;
    assert_eq!(p.interval_ms(), 1000);
    assert_eq!((sleep_step_ms(5), sleep_step_ms(20), sleep_step_ms(33)), (5, 20, 20));
}

#[test]
fn a_frame_goes_out_in_runs_of_rows_that_fit() {
    let native: Vec<u8> = (0..5 * 8).map(|i| i as u8).collect();
    let chunks = put_image_chunks(&native, 2, 5, 64 + 16);
    let runs: Vec<(usize, usize)> = chunks.iter().map(|c| (c.y, c.rows)).collect();
    assert_eq!(runs, vec![(0, 2), (2, 2), (4, 1)]);
    let all: Vec<u8> = chunks.iter().flat_map(|c| c.data.clone()).collect();
    assert_eq!(all, native);
    let tiny = put_image_chunks(&native, 2, 5, 10);
    assert_eq!(tiny.len(), 5);
    assert_eq!(put_image_chunks(&native, 2, 5, 100_000).len(), 1);
}

#[test]
fn a_picture_is_stretched_to_the_monitor() {
    let f = fmt(false, 16, 8, 0);
    let rgba = vec![10, 20, 30, 255, 40, 50, 60, 255];
    let chunks = show_picture(&f, &geometry(4, 1), 10_000, rgba.clone(), 2, 1);
    assert_eq!(chunks.len(), 1);
    assert_eq!(
        chunks[0].data,
        vec![30, 20, 10, 0, 30, 20, 10, 0, 60, 50, 40, 0, 60, 50, 40, 0]
    );
    let same = show_picture(&f, &geometry(2, 1), 10_000, rgba.clone(), 2, 1);
    assert_eq!(same[0].data, vec![30, 20, 10, 0, 60, 50, 40, 0]);
    assert!(show_picture(&f, &geometry(0, 1), 10_000, rgba, 2, 1).is_empty());
}

#[test]
fn a_frame_is_decoded_whatever_its_format() {
    let f = fmt(false, 16, 8, 0);
    let rgba = vec![10, 20, 30, 255, 40, 50, 60, 255];
    for dynamic in [true, false] {
        let (file, _) = wp_linux::render_loop::encode_frame(&rgba, 2, 1, dynamic).unwrap();
        let chunks = match show_frame(&f, &geometry(2, 1), 10_000, &file) {
            Ok(c) => c,
            Err(e) => panic!("{e}"),
        };
        assert_eq!(chunks[0].data, vec![30, 20, 10, 0, 60, 50, 40, 0]);
    }
    assert!(show_frame(&f, &geometry(2, 1), 10_000, b"no picture").is_err());
}

#[test]
fn a_frame_shows_as_it_was_rendered() {
    let f = fmt(false, 16, 8, 0);
    let (width, height) = (7u32, 5u32);
    let rgba: Vec<u8> = (0..width * height * 4).map(|i| (i * 37 % 256) as u8).collect();
    let rendered = show_picture(&f, &geometry(7, 5), 10_000, rgba.clone(), width, height);
    for dynamic in [true, false] {
        let (file, _) =
            wp_linux::render_loop::encode_frame(&rgba, width, height, dynamic).unwrap();
        let decoded = image::load_from_memory(&file).unwrap().into_rgba8();
        assert_eq!(decoded.dimensions(), (width, height));
        assert_eq!(decoded.into_raw(), rgba);
        let shown = match show_frame(&f, &geometry(7, 5), 10_000, &file) {
            Ok(c) => c,
            Err(e) => panic!("{e}"),
        };
        assert_eq!(shown.len(), rendered.len());
        assert_eq!(shown[0].data, rendered[0].data);
    }
}

#[test]
fn a_cursor_that_rests_is_not_passed_on_again() {
    let mut c = CursorForwarder::new();
    assert_eq!(c.moved((0, 0)), Some((0, 0)));
    assert_eq!(c.moved((0, 0)), None);
    assert_eq!(c.moved((0, 1)), Some((0, 1)));
    assert_eq!(c.moved((0, 0)), Some((0, 0)));
}

#[test]
fn the_cursor_is_answered_as_json() {
    let mut s = CursorState::default();
    assert_eq!(s.body(), "{\"x\":0,\"y\":0}");
    s.set(-12, 345);
    assert_eq!(s.get(), (-12, 345));
    assert_eq!(s.body(), "{\"x\":-12,\"y\":345}");
    s.set(i32::MIN, i32::MAX);
    assert_eq!(s.body(), "{\"x\":-2147483648,\"y\":2147483647}");
}
