use wp_linux::adapter::{adapter_rank, pick_adapter, pick_among, AdapterInfo, DeviceKind};
use wp_linux::draw_plan::{Bindings, Pass, Pipeline, ShaderFile, Step};
use wp_linux::gif::{cumulative_delays, decode_gif, gif_from_frames, Animation, GifFrame};
use wp_linux::load::{
    effects_size, layer_pictures, load_layer, mask_file, shader_file, LayerContent,
};
use wp_linux::pictures::{open_rgba, picture_opened, thumbnail_pixels};
use wp_linux::player::{FrameClock, OutputSize};
use wp_linux::project_format::{
    Effect, EffectKind, Layer, Mask, TextFont, TextSource, Transform2D, HALF, ONE, ZERO,
};
use wp_linux::scene::{
    create_effect_chain, first_writes, uniform_size, BufferRole, LoadedEffect, LoadedEffectKind,
    LoadedLayer, MaskKind, SceneRenderer,
};
use wp_linux::shader_preview::{checker_cell, on_light_square, preview_project};
use wp_linux::text_source::Moment;
use wp_linux::uniforms::{
    blur_uniform_bytes, coloradjust_uniform_bytes, mask_uniform_bytes, shader_uniform_bytes,
    smoke_uniform_bytes, vignette_uniform_bytes, xray_uniform_bytes,
};
use wp_linux::version::{git_hash, version};

fn single(x: f32) -> u32 {
    x.to_bits()
}

fn floats(bytes: &[u8]) -> Vec<f32> {
    bytes.chunks_exact(4).map(|c| f32::from_le_bytes([c[0], c[1], c[2], c[3]])).collect()
}

fn now() -> Moment {
    Moment { secs: 1_718_435_130, nanos: 0, offset: 7200 }
}

fn effect(kind: EffectKind, mask: Mask, enabled: bool) -> Effect {
    Effect { kind, mask, enabled }
}

fn vignette() -> Effect {
    effect(EffectKind::Vignette { strength: HALF, softness: ONE }, Mask::Unmasked, true)
}

fn blur() -> Effect {
    effect(EffectKind::Blur { radius: HALF }, Mask::Unmasked, true)
}

fn smoke() -> Effect {
    effect(
        EffectKind::Smoke { color: [ONE; 4], decay: HALF, radius: single(0.25) },
        Mask::Unmasked,
        true,
    )
}

fn shader(params: Vec<u32>) -> Effect {
    effect(
        EffectKind::Shader { wgsl_path: "s.wgsl".to_string(), params },
        Mask::Unmasked,
        true,
    )
}

#[test]
fn uniforms_are_laid_out_as_the_shaders_read_them() {
    assert_eq!(floats(&vignette_uniform_bytes(HALF, ONE)), vec![0.5, 1.0, 0.0, 0.0]);
    assert_eq!(
        floats(&coloradjust_uniform_bytes(HALF, ONE, single(-0.25))),
        vec![0.5, 1.0, -0.25, 0.0]
    );
    assert_eq!(floats(&blur_uniform_bytes(HALF, (ONE, ZERO))), vec![0.5, 1.0, 0.0, 0.0]);
    assert_eq!(
        floats(&smoke_uniform_bytes([ONE, HALF, ZERO, ONE], (HALF, ONE), ONE, HALF)),
        vec![1.0, 0.5, 0.0, 1.0, 0.5, 1.0, 1.0, 0.5]
    );
    assert_eq!(
        floats(&xray_uniform_bytes((single(3.0), single(4.0)), single(200.0))),
        vec![3.0, 4.0, 200.0, 0.0]
    );
    assert_eq!(
        floats(&shader_uniform_bytes((HALF, ONE), single(2.0), single(1.5), &vec![single(7.0)])),
        vec![0.5, 1.0, 2.0, 1.5, 7.0]
    );
}

#[test]
fn buffers_are_as_large_as_what_is_written_to_them() {
    assert_eq!(uniform_size(&vignette().kind), 16);
    assert_eq!(uniform_size(&blur().kind), 16);
    assert_eq!(uniform_size(&smoke().kind), 32);
    for (count, size) in [(0, 16), (1, 32), (4, 32), (5, 48)] {
        let params = vec![ONE; count];
        let bytes = shader_uniform_bytes((ZERO, ZERO), ZERO, ONE, &params);
        assert_eq!(uniform_size(&shader(params).kind), size);
        assert!(bytes.len() as u64 <= size);
    }
}

#[test]
fn effects_work_on_the_layers_own_picture_or_on_the_canvas() {
    let first = LoadedLayer::Image { width: 640, height: 480, effects: None };
    let second = LoadedLayer::Image { width: 10, height: 20, effects: None };
    let own = LayerContent::Picture { width: 3, height: 4 };
    assert_eq!(effects_size(&own, &vec![]), (3, 4));
    let frames = LayerContent::Frames { frames: vec![], width: 5, height: 6 };
    assert_eq!(effects_size(&LayerContent::Nothing, &vec![]), (1920, 1080));
    let loaded = vec![first, second];
    assert_eq!(effects_size(&frames, &loaded), (5, 6));
    assert_eq!(effects_size(&LayerContent::Nothing, &loaded), (640, 480));
}

#[test]
fn a_masks_mode_tells_its_kind() {
    let transform =
        Transform2D { x: single(0.25), y: HALF, scale: single(2.0), rotation: single(90.0) };
    let circle = Mask::Circle { transform, feather: single(0.125), invert: true };
    assert_eq!(
        floats(&mask_uniform_bytes(&circle, single(1.5))),
        vec![0.25, 0.5, 2.0, 90.0, 0.125, 1.0, 1.0, 1.5]
    );
    let gradient = Mask::Gradient { transform, feather: ZERO, invert: false };
    assert_eq!(floats(&mask_uniform_bytes(&gradient, ONE))[6], 2.0);
    let texture = Mask::Texture { path: "m.png".to_string(), invert: false };
    assert_eq!(floats(&mask_uniform_bytes(&texture, ONE))[6], 3.0);
    assert_eq!(floats(&mask_uniform_bytes(&Mask::Unmasked, ONE))[6], 0.0);
}

fn frames(delays: &[u64]) -> Vec<GifFrame> {
    delays.iter().map(|&delay_ms| GifFrame { rgba: vec![], delay_ms }).collect()
}

#[test]
fn an_animation_repeats() {
    let f = frames(&[100, 50, 50]);
    assert_eq!(cumulative_delays(&f), vec![100, 150, 200]);
    let mut a = Animation::new(f);
    assert_eq!(a.current, 0);
    assert!(!a.advance(99));
    assert!(a.advance(100));
    assert_eq!(a.current, 1);
    assert!(!a.advance(149));
    assert!(a.advance(150));
    assert_eq!(a.current, 2);
    assert!(a.advance(200));
    assert_eq!(a.current, 0);
    a.advance(350);
    assert_eq!(a.current, 2);
}

#[test]
fn frames_of_a_gif_have_their_delays() {
    let mut file: Vec<u8> = Vec::new();
    {
        let mut encoder = image::codecs::gif::GifEncoder::new(&mut file);
        for (color, ms) in [([255, 0, 0, 255], 100), ([0, 0, 255, 255], 10)] {
            let picture = image::RgbaImage::from_pixel(2, 1, image::Rgba(color));
            let delay = image::Delay::from_numer_denom_ms(ms, 1);
            encoder.encode_frame(image::Frame::from_parts(picture, 0, 0, delay)).unwrap();
        }
    }
    let (frames, width, height) = match decode_gif("/a.gif", &file) {
        Ok(gif) => gif,
        Err(e) => panic!("{e}"),
    };
    assert_eq!((width, height, frames.len()), (2, 1, 2));
    assert_eq!((frames[0].delay_ms, frames[1].delay_ms), (100, 20));
    assert_eq!(frames[0].rgba, vec![255, 0, 0, 255, 255, 0, 0, 255]);
}

#[test]
fn faults_of_a_gif_are_told() {
    match decode_gif("/a.gif", b"no gif") {
        Err(e) => assert!(e.starts_with("failed to decode gif \"/a.gif\": "), "{e}"),
        Ok(_) => panic!("expected an error"),
    }
    let told = |header: Option<&str>, frames: Result<Vec<(Vec<u8>, (u32, u32), (u32, u32))>, String>| {
        match gif_from_frames("/a.gif", header.map(|h| h.to_string()), frames) {
            Err(e) => e,
            Ok(_) => panic!("expected an error"),
        }
    };
    assert_eq!(told(Some("bad"), Ok(vec![])), "failed to decode gif \"/a.gif\": bad");
    assert_eq!(
        told(None, Err("cut".to_string())),
        "failed to decode gif frames \"/a.gif\": cut"
    );
    assert_eq!(told(None, Ok(vec![])), "gif \"/a.gif\" has no frames");
}

#[test]
fn pictures_are_read_by_their_extension() {
    let mut png = std::io::Cursor::new(Vec::new());
    image::RgbImage::from_pixel(1, 2, image::Rgb([1, 2, 3]))
        .write_to(&mut png, image::ImageFormat::Png)
        .unwrap();
    let bytes = png.into_inner();
    assert_eq!(open_rgba("/a.png", &bytes), Ok((vec![1, 2, 3, 255, 1, 2, 3, 255], 1, 2)));
    let error = |path: &str, bytes: &[u8]| open_rgba(path, bytes).unwrap_err();
    assert!(error("/a.png", b"nothing").starts_with("failed to open image \"/a.png\": "));
    assert!(error("/a.unknown", &bytes).starts_with("failed to open image \"/a.unknown\": "));
    assert_eq!(
        picture_opened("/a.png", Err("gone".to_string())),
        Err("failed to open image \"/a.png\": gone".to_string())
    );
    let why = |path: &str| error(path, &bytes).split("\": ").nth(1).unwrap().to_string();
    assert_eq!(why("/a."), why("/a"));
    assert_ne!(why("/a."), why("/a.unknown"));
}

#[test]
fn a_wallpaper_without_a_picture_is_one_blank_pixel() {
    assert_eq!(thumbnail_pixels(Err("gone".to_string())), (vec![0, 0, 0, 0], 1, 1));
    let picture = (vec![1, 2, 3, 4, 5, 6, 7, 8], 2, 1);
    assert_eq!(thumbnail_pixels(Ok(picture.clone())), picture);
}

#[test]
fn a_layer_names_its_files() {
    let xray = Layer::Xray {
        base: "b.png".to_string(),
        overlay: "/o.png".to_string(),
        radius: ONE,
        effects: vec![],
    };
    assert_eq!(layer_pictures("/p", &xray), vec!["/p/b.png", "/o.png"]);
    assert!(layer_pictures("/p", &Layer::Adjustment { effects: vec![] }).is_empty());
    let mask = Mask::Texture { path: "m.png".to_string(), invert: false };
    assert_eq!(mask_file("/p", &mask).as_deref(), Some("/p/m.png"));
    assert_eq!(mask_file("/p", &Mask::Unmasked), None);
    assert_eq!(shader_file("/p", &shader(vec![]).kind).as_deref(), Some("/p/s.wgsl"));
    assert_eq!(shader_file("/p", &blur().kind), None);
}

#[test]
fn layers_are_loaded_with_what_was_read() {
    let layer = Layer::Image { path: "a.png".to_string(), effects: vec![blur()] };
    let content = LayerContent::Picture { width: 8, height: 4 };
    let loaded = load_layer(&layer, content, single(2.0), false, now()).unwrap();
    assert_eq!(loaded.size(), (8, 4));
    assert_eq!(loaded.effects().unwrap().len(), 1);
    assert!(!loaded.is_dynamic());
    assert!(load_layer(&layer, LayerContent::Nothing, ONE, false, now()).is_none());

    let gif = Layer::Gif { path: "a.gif".to_string(), effects: vec![] };
    let content = LayerContent::Frames { frames: frames(&[20, 30]), width: 3, height: 2 };
    let loaded = load_layer(&gif, content, ONE, false, now()).unwrap();
    assert!(loaded.is_dynamic() && loaded.effects().is_none());

    let clock = Layer::Text {
        x: HALF,
        y: HALF,
        font_size: HALF,
        color: [ONE; 4],
        source: TextSource::Clock { format: "%H:%M".to_string() },
        font: TextFont::Bundled,
    };
    match load_layer(&clock, LayerContent::Nothing, ONE, false, now()) {
        Some(LoadedLayer::Text(text)) => assert_eq!(text.text, "09:05"),
        _ => panic!("expected a text layer"),
    }
}

#[test]
fn no_effects_are_no_stack() {
    assert!(create_effect_chain(&[], ONE).is_none());
    let chain = create_effect_chain(&[vignette(), smoke(), shader(vec![ONE])], single(1.5)).unwrap();
    assert!(matches!(chain[0].kind, LoadedEffectKind::Vignette));
    assert!(matches!(&chain[2].kind, LoadedEffectKind::Shader { params } if params == &vec![ONE]));
    assert!(chain.iter().all(|e: &LoadedEffect| e.enabled && e.canvas_aspect == single(1.5)));
}

fn picture_with(effects: &[Effect]) -> LoadedLayer {
    LoadedLayer::Image { width: 4, height: 2, effects: create_effect_chain(effects, single(2.0)) }
}

#[test]
fn numbers_of_effects_are_written_in_place() {
    let mut layer = picture_with(&[blur(), vignette()]);
    let mut changed = blur();
    changed.kind = EffectKind::Blur { radius: ONE };
    changed.enabled = false;
    let writes = layer.set_effect_params(&[changed, vignette()]);
    let horizontal = writes
        .iter()
        .find(|w| w.effect == 0 && matches!(w.role, BufferRole::BlurHorizontal))
        .unwrap();
    assert_eq!(floats(&horizontal.bytes), vec![1.0, 1.0, 0.0, 0.0]);
    let vertical =
        writes.iter().find(|w| w.effect == 0 && matches!(w.role, BufferRole::BlurVertical)).unwrap();
    assert_eq!(floats(&vertical.bytes), vec![1.0, 0.0, 1.0, 0.0]);
    assert!(!layer.effects().unwrap()[0].enabled);
    assert!(layer.effects().unwrap()[1].enabled);
    assert!(writes.iter().any(|w| w.effect == 1 && matches!(w.role, BufferRole::Params)));
}

#[test]
fn effects_of_another_shape_are_passed_over() {
    let mut layer = picture_with(&[vignette(), blur(), shader(vec![ONE])]);
    let mut other_kind = blur();
    other_kind.enabled = false;
    let mut other_mask = blur();
    other_mask.enabled = false;
    other_mask.mask = Mask::Texture { path: "m.png".to_string(), invert: false };
    let mut more_params = shader(vec![ONE, HALF]);
    more_params.enabled = false;
    let writes = layer.set_effect_params(&[other_kind, other_mask, more_params, vignette()]);
    assert!(writes.is_empty());
    let chain = layer.effects().unwrap();
    assert_eq!(chain.len(), 3);
    assert!(chain.iter().all(|e| e.enabled && e.mask == MaskKind::Unmasked));
    assert!(matches!(chain[0].kind, LoadedEffectKind::Vignette));
    assert!(matches!(&chain[2].kind, LoadedEffectKind::Shader { params } if params == &vec![ONE]));

    let writes = layer.set_effect_params(&[blur(), blur()]);
    assert!(!writes.is_empty() && writes.iter().all(|w| w.effect == 1));
}

#[test]
fn buffers_begin_with_the_cursor_far_away() {
    let color = [ONE, HALF, ZERO, ONE];
    let smoke = effect(
        EffectKind::Smoke { color, decay: HALF, radius: ONE },
        Mask::Unmasked,
        true,
    );
    let writes = first_writes(&[smoke, shader(vec![HALF]), vignette()], single(2.0));
    let params: Vec<(usize, Vec<f32>)> = writes
        .iter()
        .filter(|w| matches!(w.role, BufferRole::Params))
        .map(|w| (w.effect, floats(&w.bytes)))
        .collect();
    assert_eq!(params[0], (0, vec![1.0, 0.5, 0.0, 1.0, -1.0e6, -1.0e6, 0.5, 1.0]));
    assert_eq!(params[1].0, 1);
    assert_eq!(params[1].1[..5], [-1.0e6, -1.0e6, 0.0, 2.0, 0.5]);
    let masks = writes.iter().filter(|w| matches!(w.role, BufferRole::MaskParams)).count();
    assert_eq!(masks, 3);
    let mut layer = picture_with(&[vignette()]);
    let first = first_writes(&[vignette()], single(2.0));
    let again = layer.set_effect_params(&[vignette()]);
    assert_eq!(first.len(), again.len());
    assert!(first.iter().zip(&again).all(|(a, b)| a.bytes == b.bytes));
}

#[test]
fn only_what_changed_is_uploaded() {
    let renderer = SceneRenderer::new();
    let gif = |delays: &[u64]| LoadedLayer::Gif {
        animation: Animation::new(frames(delays)),
        width: 1,
        height: 1,
        effects: None,
    };
    let mut layers = vec![gif(&[100, 100]), picture_with(&[]), gif(&[30, 30])];
    assert!(renderer.advance_gifs(&mut layers, 10).is_empty());
    assert_eq!(renderer.advance_gifs(&mut layers, 50), vec![2]);
    assert_eq!(renderer.advance_gifs(&mut layers, 120), vec![0, 2]);

    let clock = Layer::Text {
        x: HALF,
        y: HALF,
        font_size: HALF,
        color: [ONE; 4],
        source: TextSource::Clock { format: "%H:%M".to_string() },
        font: TextFont::Bundled,
    };
    let mut texts =
        vec![load_layer(&clock, LayerContent::Nothing, ONE, false, now()).unwrap()];
    assert!(renderer.advance_text_sources(&mut texts, now()).is_empty());
    let later = Moment { secs: now().secs + 60, nanos: 0, offset: 7200 };
    assert_eq!(renderer.advance_text_sources(&mut texts, later), vec![0]);
    assert!(renderer.advance_text_sources(&mut texts, later).is_empty());
}

#[test]
fn cursors_are_written_where_they_are_read() {
    let renderer = SceneRenderer::new();
    let layers = vec![
        picture_with(&[smoke(), shader(vec![single(7.0)])]),
        LoadedLayer::Xray { radius: single(200.0), width: 1, height: 1, effects: None },
    ];
    let xray = renderer.update_xray_cursors(&layers, (single(3.0), single(4.0)));
    assert_eq!(xray.len(), 1);
    assert_eq!(xray[0].0, 1);
    assert_eq!(floats(&xray[0].1), vec![3.0, 4.0, 200.0, 0.0]);
    let smoke = renderer.update_smoke_cursors(&layers, (HALF, ONE));
    assert_eq!((smoke.len(), smoke[0].layer, smoke[0].effect), (1, 0, 0));
    assert_eq!(floats(&smoke[0].bytes)[4..6], [0.5, 1.0]);
    let shaders = renderer.update_shader_effects(&layers, (HALF, ONE), single(1.25));
    assert_eq!((shaders.len(), shaders[0].effect), (1, 1));
    assert_eq!(floats(&shaders[0].bytes), vec![0.5, 1.0, 1.25, 2.0, 7.0]);
}

#[test]
fn the_text_viewport_is_the_canvas() {
    let mut renderer = SceneRenderer::new();
    let layers = vec![picture_with(&[])];
    assert!(renderer.set_text_viewport(&layers, 640, 360).is_empty());
    assert_eq!((renderer.canvas_width, renderer.canvas_height), (640, 360));
}

#[test]
fn plain_layers_are_drawn_bottom_to_top() {
    let renderer = SceneRenderer::new();
    let layers = vec![
        picture_with(&[]),
        LoadedLayer::Xray { radius: ONE, width: 1, height: 1, effects: None },
    ];
    assert_eq!(
        renderer.record_draw(&layers),
        vec![
            Step::Composite { clear: true },
            Step::Draw { layer: 0, pipeline: Pipeline::Image, accumulated: false },
            Step::Draw { layer: 1, pipeline: Pipeline::Xray, accumulated: false },
            Step::Text,
        ]
    );
}

#[test]
fn effects_run_before_their_layer_is_drawn() {
    let renderer = SceneRenderer::new();
    let mut off = vignette();
    off.enabled = false;
    let layers = vec![picture_with(&[off, vignette()])];
    assert_eq!(
        renderer.record_draw(&layers),
        vec![
            Step::Base { layer: 0, pipeline: Pipeline::ImageOffscreen },
            Step::Filter { layer: 0, effect: 1, pass: Pass::Only, pipeline: Pipeline::Vignette },
            Step::Blend { layer: 0, effect: 1, from_state: false },
            Step::Composite { clear: true },
            Step::Draw { layer: 0, pipeline: Pipeline::Image, accumulated: true },
            Step::Text,
        ]
    );
}

#[test]
fn every_pipeline_has_its_shader() {
    let info = Pipeline::MaskBlend.info();
    assert_eq!(info.shader, ShaderFile::MaskBlend);
    assert!(info.offscreen && info.blends);
    let info = Pipeline::Image.info();
    assert_eq!((info.shader, info.bindings), (ShaderFile::Image, Bindings::TextureSampler));
    assert!(!info.offscreen && info.blends);
}

fn card(name: &str, kind: DeviceKind) -> AdapterInfo {
    AdapterInfo { name: name.to_string(), kind }
}

#[test]
fn the_integrated_card_is_preferred() {
    let cards = vec![
        card("llvmpipe", DeviceKind::Cpu),
        card("NVIDIA GeForce", DeviceKind::Discrete),
        card("AMD Radeon", DeviceKind::Integrated),
        card("Intel", DeviceKind::Integrated),
    ];
    assert_eq!(pick_adapter(&cards, &None), Some(2));
    assert_eq!(pick_adapter(&cards, &Some("nvidia".to_string())), Some(1));
    assert_eq!(pick_adapter(&cards, &Some("GEFORCE".to_string())), Some(1));
    assert_eq!(pick_adapter(&cards, &Some("matrox".to_string())), Some(2));
    assert_eq!(pick_adapter(&Vec::new(), &None), None);
    let ranks: Vec<u8> = [
        DeviceKind::Integrated,
        DeviceKind::Discrete,
        DeviceKind::Virtual,
        DeviceKind::Other,
        DeviceKind::Cpu,
    ]
    .iter()
    .map(|&k| adapter_rank(k))
    .collect();
    assert_eq!(ranks, vec![0, 1, 2, 3, 4]);
    let names = vec!["a".to_string(), "ab".to_string()];
    let kinds = vec![DeviceKind::Cpu, DeviceKind::Discrete];
    assert_eq!(pick_among(&names, &kinds, &Some("a".to_string())), Some(0));
    assert_eq!(pick_among(&names, &kinds, &Some("b".to_string())), Some(1));
}

#[test]
fn a_surface_waits_for_its_size() {
    let mut s = OutputSize::new();
    assert!(!s.configure(0, 0));
    assert!(!s.configure(800, 0));
    assert!(!s.configured);
    assert!(s.configure(0, 600));
    assert!(s.configured);
    assert_eq!((s.width, s.height), (800, 600));
    let mut clock = FrameClock::new();
    assert_eq!(clock.step(16), 16);
    assert_eq!(clock.step(40), 24);
    assert_eq!(clock.step(30), 0);
}

#[test]
fn a_shader_is_shown_on_a_picture() {
    let p = preview_project("/a.png".to_string(), "/s.wgsl".to_string(), vec![HALF]);
    assert_eq!((p.fps, p.layers.len()), (20, 1));
    assert!(p.layers[0].is_dynamic());
    assert_eq!(checker_cell(256, 100), 32);
    assert_eq!(checker_cell(3, 2), 1);
    assert!(on_light_square(0, 0, 32) && !on_light_square(32, 0, 32));
    assert!(on_light_square(32, 63, 32));
}

#[test]
fn a_build_says_what_it_is() {
    assert_eq!(git_hash(true, b"0123456789\n"), "0123456789");
    assert_eq!(git_hash(true, b" \n"), "unknown");
    assert_eq!(git_hash(true, b"\xff"), "unknown");
    assert_eq!(git_hash(false, b"0123456789\n"), "unknown");
    assert_eq!(version(&None), "dev");
    assert_eq!(version(&Some("v1.2".to_string())), "v1.2");
}
