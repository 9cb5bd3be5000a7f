use wp_linux::bmp::{encode_bmp, PIXELS_AT};
use wp_linux::canvas::{
    padded_bytes_per_row, scene_thumbnail_size, strip_padding, thumbnail_file, thumbnail_size,
};
use wp_linux::monitors_config::Assignments;
use wp_linux::project_format::{Effect, EffectKind, Layer, Mask, Project, HALF, ONE, ZERO};
use wp_linux::render_loop::{
    check_project, encode_frame, is_power_saver, project_trusted, scene_info, sleep_ms,
    RenderState, SceneInfo,
};
use wp_linux::render_server::parse_meta;
use wp_linux::scene::LoadedLayer;
use wp_linux::server_state::{
    meta_body, parse_geometry, route, FrameFormat, Geometry, Method, Reply, Request, Route,
    ServerState,
};

#[test]
fn encode_bmp_round_trips_through_image_crate() {
    let width = 3u32;
    let height = 2u32;
    let rgba: Vec<u8> = (0..(width * height))
        .flat_map(|i| {
            let i = i as u8;
            [i, i.wrapping_add(50), i.wrapping_add(100), i.wrapping_add(150)]
        })
        .collect();

    let bmp_bytes = encode_bmp(&rgba, width, height);

    let decoded = image::load_from_memory_with_format(&bmp_bytes, image::ImageFormat::Bmp)
        .expect("image crate failed to decode our BMP output")
        .into_rgba8();

    assert_eq!(decoded.dimensions(), (width, height));
    assert_eq!(decoded.into_raw(), rgba);
}

#[test]
fn a_bmp_file_holds_its_rows_bottom_up() {
    let rgba: Vec<u8> = (0..24).collect();
    let file = encode_bmp(&rgba, 2, 3);
    assert_eq!(file.len(), PIXELS_AT as usize + 24);
    assert_eq!(&file[0..2], b"BM");
    assert_eq!(u32::from_le_bytes([file[2], file[3], file[4], file[5]]), 146);
    assert_eq!(u32::from_le_bytes([file[10], file[11], file[12], file[13]]), 122);
    assert_eq!(u32::from_le_bytes([file[18], file[19], file[20], file[21]]), 2);
    assert_eq!(u32::from_le_bytes([file[22], file[23], file[24], file[25]]), 3);
    assert_eq!(&file[122..130], &rgba[16..24]);
    assert_eq!(&file[138..146], &rgba[0..8]);
    assert_eq!(encode_bmp(&[], 0, 5).len(), 122);
}

#[test]
fn rows_from_the_graphics_card_lose_their_padding() {
    assert_eq!(padded_bytes_per_row(1), 256);
    assert_eq!(padded_bytes_per_row(64), 256);
    assert_eq!(padded_bytes_per_row(65), 512);
    let mut view = vec![9u8; 512];
    for i in 0..8 {
        view[i] = i as u8;
        view[256 + i] = 10 + i as u8;
    }
    assert_eq!(
        strip_padding(&view, 2, 2),
        vec![0, 1, 2, 3, 4, 5, 6, 7, 10, 11, 12, 13, 14, 15, 16, 17]
    );
}

#[test]
fn thumbnails_keep_the_proportions() {
    assert_eq!(thumbnail_size(1920, 1080), (320, 180));
    assert_eq!(thumbnail_size(100, 50), (100, 50));
    assert_eq!(thumbnail_size(4000, 1), (320, 1));
    assert_eq!(thumbnail_size(0, 0), (1, 1));
    assert_eq!(scene_thumbnail_size(&vec![picture(640, 480)]), Ok((320, 240)));
    assert_eq!(scene_thumbnail_size(&Vec::new()), Err("no scene loaded".to_string()));
    let mut view = vec![0u8; 256];
    view[0..4].copy_from_slice(&[1, 2, 3, 255]);
    let file = thumbnail_file(&view, 1, 1).unwrap();
    let back = image::load_from_memory(&file).unwrap().into_rgba8();
    assert_eq!(back.into_raw(), vec![1, 2, 3, 255]);
}

fn picture(width: u32, height: u32) -> LoadedLayer {
    LoadedLayer::Image { width, height, effects: None }
}

fn project(layers: Vec<Layer>, fps: u32) -> Project {
    Project { name: String::new(), description: String::new(), layers, fps }
}

fn image_layer(effects: Vec<Effect>) -> Layer {
    Layer::Image { path: "a.png".to_string(), effects }
}

fn xray_layer() -> Layer {
    Layer::Xray { base: "a".to_string(), overlay: "b".to_string(), radius: ONE, effects: vec![] }
}

#[test]
fn a_project_without_layers_cannot_be_rendered() {
    assert_eq!(check_project(&project(vec![], 30)), Err("project has no layers".to_string()));
    assert_eq!(check_project(&project(vec![image_layer(vec![])], 30)), Ok(()));
}

#[test]
fn the_layer_at_the_bottom_sets_the_canvas() {
    let p = project(vec![image_layer(vec![]), xray_layer()], 0);
    let info = scene_info(&p, &vec![picture(64, 32), picture(8, 8)]);
    assert_eq!((info.canvas_width, info.canvas_height), (64, 32));
    assert_eq!(info.fps, 1);
    assert!(info.dynamic && info.needs_cursor && !info.continuous);

    let still = scene_info(&project(vec![image_layer(vec![])], 144), &vec![picture(1, 1)]);
    assert_eq!(still.fps, 60);
    assert!(!still.dynamic && !still.needs_cursor && !still.continuous);

    let gif = Layer::Gif { path: "a.gif".to_string(), effects: vec![] };
    let moving = scene_info(&project(vec![gif], 24), &vec![picture(1, 1)]);
    assert!(moving.dynamic && !moving.needs_cursor && !moving.continuous);
    assert_eq!(moving.fps, 24);

    let parallax = Layer::Parallax {
        path: "a".to_string(),
        strength: ZERO,
        smoothing: ZERO,
        effects: vec![],
    };
    let eased = scene_info(&project(vec![parallax], 24), &vec![picture(1, 1)]);
    assert!(eased.dynamic && eased.needs_cursor && !eased.continuous);

    let smoke = Effect {
        kind: EffectKind::Smoke { color: [ONE; 4], decay: ONE, radius: ONE },
        mask: Mask::Unmasked,
        enabled: true,
    };
    let trail = scene_info(&project(vec![image_layer(vec![smoke])], 24), &vec![picture(1, 1)]);
    assert!(trail.dynamic && trail.needs_cursor && trail.continuous);
}

#[test]
fn a_settled_pan_renders_nothing_new() {
    let parallax = Layer::Parallax {
        path: "a".to_string(),
        strength: HALF,
        smoothing: ONE,
        effects: vec![],
    };
    let mut s = RenderState::new();
    s.loaded(Some(scene_info(&project(vec![parallax], 30), &vec![picture(1, 1)])));
    let at = Some((ONE, ZERO));
    assert_eq!(s.tick(false, true, at), Some(at));
    assert_eq!(s.tick(false, true, at), Some(at));
    assert!(s.tick(false, false, at).is_none());
    assert!(s.tick(false, false, Some((ZERO, ZERO))).is_some());
}

#[test]
fn commands_run_for_trusted_projects_alone() {
    let file = Some("[\"abc\"]".to_string());
    assert!(project_trusted(&file, "/lib/wallpapers/abc"));
    assert!(!project_trusted(&file, "/lib/wallpapers/abd"));
    assert!(!project_trusted(&file, "/"));
    assert!(!project_trusted(&None, "/lib/wallpapers/abc"));
    assert!(is_power_saver("power-saver"));
    assert!(!is_power_saver("balanced"));
}

fn scene(dynamic: bool, needs_cursor: bool, continuous: bool, fps: u32) -> SceneInfo {
    SceneInfo { canvas_width: 4, canvas_height: 4, dynamic, needs_cursor, continuous, fps }
}

#[test]
fn a_still_scene_is_rendered_once() {
    let mut s = RenderState::new();
    assert_eq!(s.tick_ms, 33);
    assert!(s.tick(false, true, None).is_none());
    s.loaded(Some(scene(false, false, false, 25)));
    assert_eq!(s.tick_ms, 40);
    assert!(!s.advances(false));
    assert_eq!(s.tick(false, false, None), Some(None));
    assert!(s.tick(false, true, Some((ONE, ONE))).is_none());
}

#[test]
fn saving_power_freezes_the_last_frame() {
    let mut s = RenderState::new();
    s.loaded(Some(scene(true, true, true, 30)));
    assert_eq!(s.tick(true, false, Some((ONE, ONE))), Some(None));
    assert!(!s.advances(true));
    assert!(s.tick(true, true, Some((ONE, ONE))).is_none());
    assert!(s.advances(false));
    assert_eq!(s.tick(false, false, Some((ONE, ONE))), Some(Some((ONE, ONE))));
}

#[test]
fn a_resting_cursor_renders_nothing_new() {
    let mut s = RenderState::new();
    s.loaded(Some(scene(true, true, false, 30)));
    assert_eq!(s.tick(false, false, Some((ONE, ZERO))), Some(Some((ONE, ZERO))));
    assert!(s.tick(false, false, Some((ONE, ZERO))).is_none());
    let minus_zero = (-0.0f32).to_bits();
    assert!(s.tick(false, false, Some((ONE, minus_zero))).is_none());
    assert!(s.tick(false, false, None).is_some());
    assert!(s.tick(false, true, None).is_some());
    let nan = f32::NAN.to_bits();
    assert!(s.tick(false, false, Some((nan, ONE))).is_some());
    assert!(s.tick(false, false, Some((nan, ONE))).is_some());
}

#[test]
fn a_failed_load_keeps_what_is_shown() {
    let mut s = RenderState::new();
    s.loaded(Some(scene(true, false, false, 10)));
    s.tick(false, false, None);
    s.loaded(None);
    assert_eq!(s.tick_ms, 100);
    assert!(!s.needs_render);
    assert!(s.scene.is_some());
}

#[test]
fn a_ticks_work_is_part_of_its_time() {
    let mut a = RenderState::new();
    assert!(a.due(0));
    a.schedule(100, false);
    assert_eq!(a.next_ms, 133);
    assert!(!a.due(132) && a.due(133));
    let mut b = RenderState::new();
    b.schedule(100, true);
    assert_eq!(b.next_ms, 2100);
    assert_eq!(sleep_ms(&vec![a, b], 110, false), 23);
    assert_eq!(sleep_ms(&vec![a, b], 140, true), 0);
    assert_eq!(sleep_ms(&vec![b], 140, true), 1960);
    assert_eq!(sleep_ms(&Vec::new(), 140, false), 33);
    assert_eq!(sleep_ms(&Vec::new(), 140, true), 2000);
    b.schedule(u64::MAX, false);
    assert_eq!(b.next_ms, u64::MAX);
}

#[test]
fn frames_go_out_packed_or_as_they_are() {
    let rgba = vec![1, 2, 3, 255, 4, 5, 6, 255];
    let (bmp, format) = encode_frame(&rgba, 2, 1, true).unwrap();
    assert_eq!(format, FrameFormat::Bmp);
    assert_eq!(bmp, encode_bmp(&rgba, 2, 1));
    let (png, format) = encode_frame(&rgba, 2, 1, false).unwrap();
    assert_eq!(format, FrameFormat::Png);
    assert_eq!(image::load_from_memory(&png).unwrap().into_rgba8().into_raw(), rgba);
}

fn request(method: Method, target: &str, body: &str) -> Request {
    Request {
        method,
        target: target.to_string(),
        body: body.to_string(),
        body_error: None,
        geometry: None,
    }
}

fn text(r: &Reply) -> (u16, String) {
    (r.status, String::from_utf8(r.body.clone()).unwrap())
}

#[test]
fn requests_are_told_apart_by_method_and_path() {
    assert_eq!(route(Method::Post, "/project?monitor=a"), Route::Project);
    assert_eq!(route(Method::Post, "/geometry"), Route::Geometry);
    assert_eq!(route(Method::Get, "/frame?t=123"), Route::Frame);
    assert_eq!(route(Method::Get, "/meta"), Route::Meta);
    assert_eq!(route(Method::Get, "/project"), Route::NotFound);
    assert_eq!(route(Method::Post, "/frame"), Route::NotFound);
    assert_eq!(route(Method::Other, "/frame"), Route::NotFound);
    assert_eq!(route(Method::Get, "/"), Route::NotFound);
}

#[test]
fn geometries_are_four_numbers() {
    let parts = |s: &str| parse_geometry(s);
    assert_eq!(
        parts(" 0, -1.5 ,1920,1080\n"),
        Some(("0".to_string(), "-1.5".to_string(), "1920".to_string(), "1080".to_string()))
    );
    assert_eq!(
        parts("1,2,3,4,5"),
        Some(("1".to_string(), "2".to_string(), "3".to_string(), "4".to_string()))
    );
    assert_eq!(parts("1,2,3"), None);
    assert_eq!(parts(""), None);
}

#[test]
fn every_monitor_is_kept_for_itself() {
    let mut s = ServerState::new();
    let r = s.respond(&request(Method::Post, "/project?monitor=A%20B", " /p/one \n"));
    assert_eq!(text(&r), (200, "ok".to_string()));
    let r = s.respond(&request(Method::Post, "/project?monitor=C", "/p/two"));
    assert_eq!(text(&r), (200, "ok".to_string()));
    s.publish("C", true, 30, vec![1, 2, 3], FrameFormat::Bmp);

    let r = s.respond(&request(Method::Get, "/frame?monitor=C", ""));
    assert_eq!((r.status, r.body.clone()), (200, vec![1, 2, 3]));
    assert_eq!(r.content_type.as_deref(), Some("image/bmp"));
    let r = s.respond(&request(Method::Get, "/frame?monitor=A%20B", ""));
    assert_eq!(text(&r), (404, "no project loaded".to_string()));
    let r = s.respond(&request(Method::Get, "/meta?monitor=C", ""));
    assert_eq!(r.content_type.as_deref(), Some("application/json"));
    assert_eq!(
        text(&r).1,
        r#"{"ready":true,"frame_id":1,"needs_cursor":true,"fps":30,"has_geometry":false}"#
    );
    let r = s.respond(&request(Method::Get, "/meta?monitor=unknown", ""));
    assert_eq!(
        text(&r).1,
        r#"{"ready":false,"frame_id":0,"needs_cursor":false,"fps":0,"has_geometry":false}"#
    );

    let mut pending = vec![s.take_pending().unwrap(), s.take_pending().unwrap()];
    pending.sort();
    assert_eq!(
        pending,
        vec![
            ("A B".to_string(), "/p/one".to_string()),
            ("C".to_string(), "/p/two".to_string()),
        ]
    );
    assert!(s.take_pending().is_none());
}

#[test]
fn a_body_that_cannot_be_read_is_refused() {
    let mut s = ServerState::new();
    let mut r = request(Method::Post, "/project", "");
    r.body_error = Some("stream did not contain valid UTF-8".to_string());
    assert_eq!(
        text(&s.respond(&r)),
        (400, "bad request body: stream did not contain valid UTF-8".to_string())
    );
    assert!(s.take_pending().is_none());
    assert_eq!(
        text(&s.respond(&request(Method::Get, "/nothing", ""))),
        (404, "not found".to_string())
    );
}

#[test]
fn a_geometry_is_kept_until_a_bad_one_comes() {
    let mut s = ServerState::new();
    let bits = |x: f64| x.to_bits();
    let mut r = request(Method::Post, "/geometry?monitor=A", "0,0,10,20");
    r.geometry = Some(Geometry { x: bits(0.0), y: bits(0.0), width: bits(10.0), height: bits(20.0) });
    assert_eq!(text(&s.respond(&r)), (200, "ok".to_string()));
    assert!(s.monitors[0].geometry.is_some());
    let r = request(Method::Post, "/geometry?monitor=A", "nonsense");
    assert_eq!(text(&s.respond(&r)), (200, "ok".to_string()));
    assert!(s.monitors[0].geometry.is_none());
}

#[test]
fn what_the_server_says_is_what_its_clients_read() {
    let mut s = ServerState::new();
    s.set_geometry("A", Some(Geometry { x: 0, y: 0, width: 0, height: 0 }));
    for _ in 0..11 {
        s.publish("A", false, 60, vec![0], FrameFormat::Png);
    }
    s.monitors[0].frame_id = u64::MAX;
    s.monitors[0].fps = u32::MAX;
    let meta = parse_meta(&meta_body(&s.monitors[0])).unwrap();
    assert_eq!(
        (meta.ready, meta.frame_id, meta.fps, meta.has_geometry),
        (true, u64::MAX, u32::MAX, true)
    );
}

#[test]
fn assigned_projects_are_loaded_at_the_start() {
    let mut a = Assignments::new();
    a.insert("A", "/p/one");
    a.insert("B", "/p/two");
    let mut s = ServerState::new();
    s.set_pending("B", "/p/older".to_string());
    s.seed(&a);
    let mut pending = vec![s.take_pending().unwrap(), s.take_pending().unwrap()];
    pending.sort();
    assert_eq!(
        pending,
        vec![
            ("A".to_string(), "/p/one".to_string()),
            ("B".to_string(), "/p/two".to_string()),
        ]
    );
    assert!(s.take_pending().is_none());
}
