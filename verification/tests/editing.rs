use std::collections::HashMap;

use wp_linux::draft::{
    fit_params, new_effect, new_layer, Draft, EffectChoice, LayerChoice, MaskChoice, SourceChoice,
};
use wp_linux::editor::{
    build_preview_project, can_save, preview_size, EditorEffect, EditorEffectKind, EditorLayer,
    EditorMask, EditorTextFont, EditorTextSource, PAINT_MASK_RESOLUTION,
};
use wp_linux::editor_app::{
    file_label, hover_text, list_row, monitor_button, paint_mask_file, shader_choice, EditorApp,
    MonitorInfo, Tab,
};
use wp_linux::library::{Found, LibraryEntry};
use wp_linux::monitors_config::Assignments;
use wp_linux::open::{manifest_path, open_project, LoadError};
use wp_linux::paint::{
    blank_paint_buffer, expand_gray_to_rgba, load_paint_buffer_from_file, save_paint_buffer_png,
    PAINT_PIXELS,
};
use wp_linux::preview::{
    build_signature, ensure_scene, restore_painted_masks, same_signature, sync_live_params,
    SceneAction,
};
use wp_linux::project_format::{TextFont, TextSource, HALF, ONE, ZERO};
use wp_linux::save::{asset_name, save_project, FileOp, Slot};
use wp_linux::scene::LoadedLayer;
use wp_linux::selection::{selection_after_removal, selection_after_swap};
use wp_linux::shaders_library::ShaderLibraryEntry;

fn single(x: f32) -> u32 {
    x.to_bits()
}

fn image(path: &str) -> EditorLayer {
    EditorLayer::Image { path: Some(path.to_string()), effects: Vec::new() }
}

fn texture(path: Option<&str>, paint: Option<Vec<u8>>) -> EditorMask {
    EditorMask::Texture {
        path: path.map(|p| p.to_string()),
        invert: false,
        paint,
        painting: false,
        brush_radius: HALF,
        brush_softness: HALF,
        last_paint_pos: None,
    }
}

type Files = HashMap<String, Vec<u8>>;

fn perform(ops: &[FileOp], files: &mut Files) {
    for op in ops {
        match op {
            FileOp::Write { path, bytes } => {
                files.insert(path.clone(), bytes.clone());
            }
            FileOp::Copy { from, to } => {
                let bytes = files.get(from).expect("copied file").clone();
                files.insert(to.clone(), bytes);
            }
            FileOp::Rename { from, to } => {
                let bytes = files.remove(from).expect("renamed file");
                files.insert(to.clone(), bytes);
            }
        }
    }
}

#[test]
fn main_save_survives_reorder_into_same_directory() {
    let project_dir = "/lib/p";
    let originals: [&[u8]; 3] = [b"AAAA", b"BBBB", b"CCCC"];
    let mut files = Files::new();
    for (index, bytes) in originals.iter().enumerate() {
        files.insert(format!("{project_dir}/layer_{index}_image.png"), bytes.to_vec());
    }

    let reordered = vec![
        image("/lib/p/layer_2_image.png"),
        image("/lib/p/layer_0_image.png"),
        image("/lib/p/layer_1_image.png"),
    ];

    let plan = match save_project(project_dir, &reordered, 30, "Test Project", "") {
        Ok(plan) => plan,
        Err(stopped) => panic!("save_project failed: {}", stopped.error),
    };
    perform(&plan.ops, &mut files);

    assert_eq!(files["/lib/p/layer_0_image.png"], b"CCCC");
    assert_eq!(files["/lib/p/layer_1_image.png"], b"AAAA");
    assert_eq!(files["/lib/p/layer_2_image.png"], b"BBBB");
    assert_eq!(files.len(), 3);
}

#[test]
fn adjustment_layer_round_trips_through_save_and_open() {
    let project_dir = "/lib/p";
    let mut png = std::io::Cursor::new(Vec::new());
    image::RgbaImage::from_pixel(2, 2, image::Rgba([1, 2, 3, 255]))
        .write_to(&mut png, image::ImageFormat::Png)
        .unwrap();
    let mut files = Files::new();
    files.insert("/lib/p/source.png".to_string(), png.into_inner());
    let layers = vec![
        image("/lib/p/source.png"),
        EditorLayer::Adjustment {
            effects: vec![EditorEffect {
                kind: EditorEffectKind::Vignette { strength: single(0.5), softness: single(0.2) },
                mask: EditorMask::Unmasked,
                enabled: true,
            }],
        },
    ];

    assert_eq!(build_signature(&layers).len(), 2);

    let plan = match save_project(project_dir, &layers, 30, "Test Project", "") {
        Ok(plan) => plan,
        Err(stopped) => panic!("save_project failed: {}", stopped.error),
    };
    perform(&plan.ops, &mut files);
    let (reopened, _fps, _description) = open_project(&plan.project, project_dir);

    assert_eq!(reopened.len(), 2);
    match &reopened[1] {
        EditorLayer::Adjustment { effects } => {
            assert_eq!(effects.len(), 1);
            assert!(matches!(
                effects[0].kind,
                EditorEffectKind::Vignette { strength, .. } if strength == single(0.5)
            ));
        }
        other => panic!("expected EditorLayer::Adjustment, got a different variant: {}", other.label()),
    }
    match &reopened[0] {
        EditorLayer::Image { path, .. } => {
            let path = path.clone().unwrap();
            assert_eq!(path, "/lib/p/layer_0_image.png");
            assert_eq!(files[&path], files["/lib/p/source.png"]);
        }
        other => panic!("expected an image, got {}", other.label()),
    }
}

#[test]
fn every_file_of_a_project_has_a_name_of_its_own() {
    assert_eq!(asset_name(0, Slot::Image, "/x/a.jpeg"), "layer_0_image.jpeg");
    assert_eq!(asset_name(1, Slot::XrayBase, "/x/a.png"), "layer_1_xray_base.png");
    assert_eq!(asset_name(1, Slot::XrayOverlay, "/x/noext"), "layer_1_xray_overlay.png");
    assert_eq!(asset_name(12, Slot::Anim, "/x/a.gif"), "layer_12_anim.gif");
    assert_eq!(asset_name(3, Slot::Parallax, "/x/a.webp"), "layer_3_parallax.webp");
    assert_eq!(asset_name(3, Slot::Font, "/x/a.ttf"), "layer_3_font.ttf");
    assert_eq!(
        asset_name(3, Slot::EffectMask { effect: 10 }, "/x/a.png"),
        "layer_3_effect_10_mask.png"
    );
    assert_eq!(
        asset_name(3, Slot::EffectShader { effect: 0 }, "/x/a.wgsl"),
        "layer_3_effect_0_shader.wgsl"
    );
}

#[test]
fn a_saved_project_opens_as_it_was() {
    let mut files = Files::new();
    for f in ["/s/b.png", "/s/o.png", "/s/a.gif", "/s/p.png", "/s/f.ttf", "/s/m.png", "/s/x.wgsl"] {
        files.insert(f.to_string(), f.as_bytes().to_vec());
    }
    let masked = EditorEffect {
        kind: EditorEffectKind::Shader {
            wgsl_path: Some("/s/x.wgsl".to_string()),
            params: vec![ONE, HALF],
        },
        mask: texture(Some("/s/m.png"), None),
        enabled: false,
    };
    let layers = vec![
        EditorLayer::Xray {
            base: Some("/s/b.png".to_string()),
            overlay: Some("/s/o.png".to_string()),
            radius: single(200.0),
            effects: vec![masked],
        },
        EditorLayer::Gif { path: Some("/s/a.gif".to_string()), effects: vec![] },
        EditorLayer::Parallax {
            path: Some("/s/p.png".to_string()),
            strength: HALF,
            smoothing: ZERO,
            effects: vec![],
        },
        EditorLayer::Text {
            x: HALF,
            y: ONE,
            font_size: HALF,
            color: [ONE, ZERO, HALF, ONE],
            source: EditorTextSource::Clock { format: "%H".to_string() },
            font: EditorTextFont::Custom { path: Some("/s/f.ttf".to_string()) },
        },
    ];
    let plan = save_project("/lib/q", &layers, 24, "Name", "About").unwrap_or_else(|e| panic!("{}", e.error));
    perform(&plan.ops, &mut files);
    assert_eq!(plan.project.name, "Name");
    assert_eq!(plan.project.fps, 24);
    assert!(matches!(
        &plan.project.layers[3],
        wp_linux::project_format::Layer::Text { font: TextFont::Custom { path }, .. }
            if path == "layer_3_font.ttf"
    ));
    let (opened, fps, description) = open_project(&plan.project, "/lib/q");
    assert_eq!((fps, description.as_str()), (24, "About"));
    assert!(can_save(&opened));
    match &opened[0] {
        EditorLayer::Xray { base, overlay, radius, effects } => {
            assert_eq!(files[&base.clone().unwrap()], b"/s/b.png");
            assert_eq!(files[&overlay.clone().unwrap()], b"/s/o.png");
            assert_eq!(*radius, single(200.0));
            assert!(!effects[0].enabled);
            match (&effects[0].kind, &effects[0].mask) {
                (
                    EditorEffectKind::Shader { wgsl_path, params },
                    EditorMask::Texture { path, paint, .. },
                ) => {
                    assert_eq!(files[&wgsl_path.clone().unwrap()], b"/s/x.wgsl");
                    assert_eq!(params, &vec![ONE, HALF]);
                    assert_eq!(files[&path.clone().unwrap()], b"/s/m.png");
                    assert!(paint.is_none());
                }
                _ => panic!("expected a masked shader"),
            }
        }
        other => panic!("expected an x-ray layer, got {}", other.label()),
    }
}

#[test]
fn a_painted_mask_is_saved_as_it_is_painted() {
    let mut buffer = blank_paint_buffer();
    buffer[5] = 200;
    let layers = vec![EditorLayer::Adjustment {
        effects: vec![EditorEffect {
            kind: EditorEffectKind::Blur { radius: HALF },
            mask: texture(Some("/tmp/m.png"), Some(buffer.clone())),
            enabled: true,
        }],
    }];
    let mut files = Files::new();
    files.insert("/tmp/m.png".to_string(), b"stale".to_vec());
    let plan = save_project("/lib/r", &layers, 30, "", "").unwrap_or_else(|e| panic!("{}", e.error));
    perform(&plan.ops, &mut files);
    let saved = &files["/lib/r/layer_0_effect_0_mask.png"];
    assert_eq!(load_paint_buffer_from_file("m.png", saved).unwrap(), buffer);

    let short = vec![EditorLayer::Adjustment {
        effects: vec![EditorEffect {
            kind: EditorEffectKind::Blur { radius: HALF },
            mask: texture(Some("/tmp/m.png"), Some(vec![0; 3])),
            enabled: true,
        }],
    }];
    assert!(save_project("/lib/r", &short, 30, "", "").is_err());
}

#[test]
fn a_save_that_stops_leaves_the_project_as_it_was() {
    let masked = |path: &str, paint: Vec<u8>| EditorEffect {
        kind: EditorEffectKind::Blur { radius: HALF },
        mask: texture(Some(path), Some(paint)),
        enabled: true,
    };
    let mut painted = blank_paint_buffer();
    painted[7] = 9;
    let layers = vec![
        image("/lib/s/layer_1_image.png"),
        EditorLayer::Image {
            path: Some("/lib/s/layer_0_image.png".to_string()),
            effects: vec![
                masked("/tmp/good.png", painted.clone()),
                masked("/tmp/short.png", vec![0; 3]),
                masked("/tmp/never.png", blank_paint_buffer()),
            ],
        },
    ];
    let mut files = Files::new();
    for path in ["/lib/s/layer_0_image.png", "/lib/s/layer_1_image.png", "/tmp/good.png"] {
        files.insert(path.to_string(), path.as_bytes().to_vec());
    }
    let stopped = match save_project("/lib/s", &layers, 30, "", "") {
        Ok(_) => panic!("a short buffer was saved"),
        Err(stopped) => stopped,
    };
    assert_eq!(stopped.error, "paint buffer size doesn't match PAINT_MASK_RESOLUTION");
    assert_eq!(stopped.ops.len(), 4);
    assert!(!stopped.ops.iter().any(|op| matches!(op, FileOp::Rename { .. })));
    perform(&stopped.ops, &mut files);
    assert_eq!(files["/lib/s/layer_0_image.png"], b"/lib/s/layer_0_image.png");
    assert_eq!(files["/lib/s/layer_1_image.png"], b"/lib/s/layer_1_image.png");
    assert_eq!(load_paint_buffer_from_file("m.png", &files["/tmp/good.png"]).unwrap(), painted);
    assert!(!files.contains_key("/tmp/short.png") && !files.contains_key("/tmp/never.png"));
    assert_eq!(
        files["/lib/s/.wplinux-staging/layer_0_image.png"],
        b"/lib/s/layer_1_image.png"
    );
}

#[test]
fn a_mask_whose_path_ends_in_a_dot_has_no_format() {
    let png = save_paint_buffer_png(&blank_paint_buffer(), "m.png").unwrap();
    let error = load_paint_buffer_from_file("m.", &png).unwrap_err();
    assert_eq!(error, load_paint_buffer_from_file("m", &png).unwrap_err());
}

#[test]
fn expand_gray_to_rgba_replicates_into_rgb_with_full_alpha() {
    let gray = [0u8, 128, 255];
    let rgba = expand_gray_to_rgba(&gray);
    assert_eq!(rgba, vec![0, 0, 0, 255, 128, 128, 128, 255, 255, 255, 255, 255]);
}

#[test]
fn paint_buffer_png_round_trips() {
    let mut buffer = vec![0u8; (PAINT_MASK_RESOLUTION * PAINT_MASK_RESOLUTION) as usize];
    let center_index = ((PAINT_MASK_RESOLUTION / 2) * PAINT_MASK_RESOLUTION
        + PAINT_MASK_RESOLUTION / 2) as usize;
    for d in 0..50 {
        buffer[center_index - d] = 255;
        buffer[center_index + d] = 255;
    }

    let file = save_paint_buffer_png(&buffer, "mask.png").expect("save should succeed");
    let loaded = load_paint_buffer_from_file("mask.png", &file).expect("load should succeed");

    assert_eq!(loaded.len(), buffer.len());
    assert_eq!(loaded[center_index], 255);
    assert_eq!(loaded, buffer);
}

#[test]
fn a_painted_mask_is_written_in_its_files_own_format() {
    let buffer = vec![128u8; PAINT_PIXELS];
    let png = save_paint_buffer_png(&buffer, "m.PNG").unwrap();
    let jpg = save_paint_buffer_png(&buffer, "/tmp/m.jpg").unwrap();
    assert_eq!(image::guess_format(&png).unwrap(), image::ImageFormat::Png);
    assert_eq!(image::guess_format(&jpg).unwrap(), image::ImageFormat::Jpeg);
    assert_eq!(load_paint_buffer_from_file("m.jpg", &jpg).unwrap(), buffer);
    assert!(save_paint_buffer_png(&buffer, "m.txt").is_err());
}

#[test]
fn any_picture_can_be_painted_on() {
    let mut png = std::io::Cursor::new(Vec::new());
    image::GrayImage::from_pixel(3, 5, image::Luma([77]))
        .write_to(&mut png, image::ImageFormat::Png)
        .unwrap();
    let loaded = load_paint_buffer_from_file("a.png", &png.into_inner()).unwrap();
    assert_eq!(loaded.len(), PAINT_PIXELS);
    assert!(loaded.iter().all(|&g| g == 77));
    assert!(load_paint_buffer_from_file("a.png", b"nothing").is_err());
    assert_eq!(
        save_paint_buffer_png(&vec![0u8; 10], "m.png"),
        Err("paint buffer size doesn't match PAINT_MASK_RESOLUTION".to_string())
    );
}

#[test]
fn selections_follow_their_items() {
    assert_eq!(selection_after_removal(Some(2), 2), None);
    assert_eq!(selection_after_removal(Some(2), 0), Some(1));
    assert_eq!(selection_after_removal(Some(2), 3), Some(2));
    assert_eq!(selection_after_removal(None, 0), None);
    assert_eq!(selection_after_swap(Some(1), 1, 2), Some(2));
    assert_eq!(selection_after_swap(Some(2), 1, 2), Some(1));
    assert_eq!(selection_after_swap(Some(0), 1, 2), Some(0));
}

fn labels(d: &Draft) -> Vec<&'static str> {
    d.layers.iter().map(|l| l.label()).collect()
}

#[test]
fn a_new_layer_is_selected() {
    let mut d = Draft::new();
    assert_eq!((d.fps, d.save_label()), (30, "Save (new)"));
    d.add_layer(LayerChoice::Image);
    d.add_layer(LayerChoice::Text);
    assert_eq!(labels(&d), vec!["Image", "Text"]);
    assert_eq!((d.selected, d.selected_effect), (Some(1), None));
    d.id = Some("ab".to_string());
    assert_eq!(d.save_label(), "Save");
}

#[test]
fn layers_begin_with_their_defaults() {
    assert!(matches!(
        new_layer(LayerChoice::Xray),
        EditorLayer::Xray { base: None, overlay: None, radius, .. } if radius == single(200.0)
    ));
    assert!(matches!(
        new_layer(LayerChoice::Parallax),
        EditorLayer::Parallax { path: None, strength, smoothing, .. }
            if strength == single(0.05) && smoothing == single(0.15)
    ));
    assert!(matches!(
        new_layer(LayerChoice::Text),
        EditorLayer::Text { x, y, font_size, color, .. }
            if x == single(0.5) && y == single(0.5) && font_size == single(0.05)
                && color == [single(1.0); 4]
    ));
    assert!(new_layer(LayerChoice::Text).is_complete());
    assert!(new_layer(LayerChoice::Adjustment).is_complete());
    assert!(!new_layer(LayerChoice::Gif).is_complete());
}

#[test]
fn effects_begin_with_their_defaults() {
    assert!(matches!(
        new_effect(EffectChoice::Vignette).kind,
        EditorEffectKind::Vignette { strength, softness }
            if strength == single(0.5) && softness == single(0.5)
    ));
    assert!(matches!(
        new_effect(EffectChoice::ColorAdjust).kind,
        EditorEffectKind::ColorAdjust { brightness: 0, contrast: 0, saturation: 0 }
    ));
    assert!(matches!(
        new_effect(EffectChoice::Blur).kind,
        EditorEffectKind::Blur { radius } if radius == single(0.02)
    ));
    assert!(matches!(
        new_effect(EffectChoice::Smoke).kind,
        EditorEffectKind::Smoke { color, decay, radius }
            if color == [single(0.6), single(0.3), single(0.9), single(1.0)]
                && decay == single(0.97) && radius == single(0.05)
    ));
    let shader = new_effect(EffectChoice::Shader);
    assert!(shader.enabled && !shader.is_complete());
    assert_eq!(shader.kind.effect_kind_label(), "Shader");
}

#[test]
fn the_same_layer_stays_selected() {
    let mut d = Draft::new();
    for choice in [LayerChoice::Image, LayerChoice::Gif, LayerChoice::Adjustment] {
        d.add_layer(choice);
    }
    d.add_effect(EffectChoice::Blur);
    d.select_effect(0);
    d.move_layer_up(2);
    assert_eq!(labels(&d), vec!["Image", "Adjustment", "Gif"]);
    assert_eq!((d.selected, d.selected_effect), (Some(1), Some(0)));
    d.move_layer_up(0);
    d.move_layer_down(2);
    assert_eq!(labels(&d), vec!["Image", "Adjustment", "Gif"]);
    d.remove_layer(0);
    assert_eq!((d.selected, d.selected_effect), (Some(0), Some(0)));
    d.move_layer_down(0);
    assert_eq!(labels(&d), vec!["Gif", "Adjustment"]);
    assert_eq!(d.selected, Some(1));
    d.remove_layer(1);
    assert_eq!((d.selected, d.selected_effect), (None, None));
    d.select_layer(0);
    assert_eq!(d.selected, Some(0));
}

#[test]
fn the_same_effect_stays_selected() {
    let mut d = Draft::new();
    d.add_layer(LayerChoice::Text);
    d.add_effect(EffectChoice::Blur);
    assert_eq!(d.effect_count(), 0);
    d.add_layer(LayerChoice::Image);
    for choice in [EffectChoice::Blur, EffectChoice::Smoke, EffectChoice::Vignette] {
        d.add_effect(choice);
    }
    let kinds = |d: &Draft| -> Vec<&'static str> {
        d.layers[1].effects().unwrap().iter().map(|e| e.kind.effect_kind_label()).collect()
    };
    assert_eq!(kinds(&d), vec!["Blur", "Smoke", "Vignette"]);
    d.select_effect(2);
    d.move_effect_up(2);
    assert_eq!(kinds(&d), vec!["Blur", "Vignette", "Smoke"]);
    assert_eq!(d.selected_effect, Some(1));
    d.move_effect_down(0);
    assert_eq!(kinds(&d), vec!["Vignette", "Blur", "Smoke"]);
    assert_eq!(d.selected_effect, Some(0));
    d.move_effect_up(0);
    d.move_effect_down(2);
    d.remove_effect(1);
    assert_eq!(kinds(&d), vec!["Vignette", "Smoke"]);
    assert_eq!(d.selected_effect, Some(0));
    d.remove_effect(0);
    assert_eq!((d.selected_effect, d.effect_count()), (None, 1));
}

fn mask(d: &mut Draft) -> &mut EditorMask {
    &mut d.layers[0].effects_mut().unwrap()[1].mask
}

#[test]
fn painting_selects_its_effect() {
    let mut d = Draft::new();
    d.add_layer(LayerChoice::Image);
    d.add_effect(EffectChoice::Blur);
    d.add_effect(EffectChoice::Blur);
    d.toggle_paint(1, Some(("/t/a.png".to_string(), vec![7])));
    assert_eq!(d.selected_effect, None);

    mask(&mut d).switch(MaskChoice::Texture);
    assert!(mask(&mut d).wants_buffer());
    d.toggle_paint(1, Some(("/t/a.png".to_string(), vec![7])));
    assert_eq!(d.selected_effect, Some(1));
    assert!(mask(&mut d).is_painting());
    match mask(&mut d) {
        EditorMask::Texture { path, paint, .. } => {
            assert_eq!(path.as_deref(), Some("/t/a.png"));
            assert_eq!(paint.as_deref(), Some(&[7u8][..]));
        }
        _ => panic!("expected a texture"),
    }
    d.toggle_paint(1, None);
    assert!(!mask(&mut d).is_painting() && !mask(&mut d).wants_buffer());
    d.toggle_paint(1, Some(("/t/b.png".to_string(), vec![8])));
    match mask(&mut d) {
        EditorMask::Texture { path, .. } => assert_eq!(path.as_deref(), Some("/t/a.png")),
        _ => panic!("expected a texture"),
    }
}

#[test]
fn switching_to_the_same_kind_changes_nothing() {
    let mut m = EditorMask::Unmasked;
    m.switch(MaskChoice::Circle);
    match &mut m {
        EditorMask::Circle { feather, invert, .. } => {
            assert_eq!((*feather, *invert), (single(0.2), false));
            *feather = ONE;
        }
        _ => panic!("expected a circle"),
    }
    m.switch(MaskChoice::Circle);
    assert!(matches!(m, EditorMask::Circle { feather, .. } if feather == ONE));
    m.switch(MaskChoice::Gradient);
    assert!(matches!(m, EditorMask::Gradient { feather, .. } if feather == single(0.2)));
    m.switch(MaskChoice::Unmasked);
    assert!(matches!(m, EditorMask::Unmasked));

    let mut s = EditorTextSource::Literal("hi".to_string());
    s.switch(SourceChoice::Literal);
    assert!(matches!(&s, EditorTextSource::Literal(t) if t == "hi"));
    s.switch(SourceChoice::Clock);
    assert!(matches!(&s, EditorTextSource::Clock { format } if format == "%H:%M"));
    s.switch(SourceChoice::Command);
    assert!(matches!(
        &s,
        EditorTextSource::Command { command, interval_secs: 60 } if command.is_empty()
    ));
    assert!(s.is_command());
    assert!(matches!(s.to_project(), TextSource::Command { .. }));

    let mut f = EditorTextFont::default();
    f.switch(true);
    assert!(!f.is_complete());
    f = EditorTextFont::Custom { path: Some("/f.ttf".to_string()) };
    f.switch(true);
    assert!(f.is_complete());
    f.switch(false);
    assert!(matches!(f, EditorTextFont::Bundled));
}

#[test]
fn a_shaders_file_says_how_many_parameters_there_are() {
    let mut params = vec![ONE, HALF];
    fit_params(&mut params, &vec![ZERO, ZERO]);
    assert_eq!(params, vec![ONE, HALF]);
    fit_params(&mut params, &vec![HALF]);
    assert_eq!(params, vec![HALF]);
}

#[test]
fn a_preview_needs_every_file() {
    assert!(build_preview_project(&Vec::new()).is_none());
    assert!(!can_save(&Vec::new()));
    let missing = vec![image("/a.png"), new_layer(LayerChoice::Gif)];
    assert!(build_preview_project(&missing).is_none());
    let mut unmasked = image("/a.png");
    unmasked.effects_mut().unwrap().push(EditorEffect {
        kind: EditorEffectKind::Blur { radius: HALF },
        mask: texture(None, None),
        enabled: true,
    });
    assert!(!unmasked.is_complete());
    let project = build_preview_project(&vec![image("/a.png")]).unwrap();
    assert_eq!(project.layers.len(), 1);
    assert_eq!(preview_size(1920, 1080), (480, 270));
    assert_eq!(preview_size(100, 50), (100, 50));
    assert_eq!(preview_size(0, 50), (480, 270));
    assert_eq!(preview_size(4000, 1), (480, 1));
}

#[test]
fn a_preview_is_loaded_again_when_files_change() {
    let layers = vec![image("/a.png")];
    let signature = match ensure_scene(&None, &layers) {
        SceneAction::Load { signature, .. } => signature,
        _ => panic!("expected a scene to load"),
    };
    assert!(matches!(ensure_scene(&Some(signature), &layers), SceneAction::Keep));
    let again = Some(build_signature(&layers));
    assert!(matches!(ensure_scene(&again, &vec![image("/b.png")]), SceneAction::Load { .. }));
    assert!(matches!(ensure_scene(&again, &Vec::new()), SceneAction::Clear));

    let with = |radius: u32| {
        let mut l = image("/a.png");
        l.effects_mut().unwrap().push(EditorEffect {
            kind: EditorEffectKind::Blur { radius },
            mask: EditorMask::Unmasked,
            enabled: true,
        });
        vec![l]
    };
    assert!(same_signature(&build_signature(&with(ONE)), &build_signature(&with(HALF))));
    assert!(!same_signature(&build_signature(&with(ONE)), &build_signature(&layers)));
}

#[test]
fn numbers_are_taken_over_without_loading() {
    let layers = vec![
        EditorLayer::Xray {
            base: Some("/a".to_string()),
            overlay: Some("/b".to_string()),
            radius: single(200.0),
            effects: vec![],
        },
        EditorLayer::Parallax {
            path: Some("/a".to_string()),
            strength: HALF,
            smoothing: ONE,
            effects: vec![],
        },
    ];
    let mut loaded = vec![
        LoadedLayer::Xray { radius: ZERO, width: 1, height: 1, effects: None },
        LoadedLayer::Parallax {
            strength: ZERO,
            smoothing: ZERO,
            width: 1,
            height: 1,
            effects: None,
        },
    ];
    let writes = sync_live_params(&mut loaded, &layers, &vec![single(50.0), ZERO]);
    assert!(writes.iter().all(|w| w.writes.is_empty()));
    assert!(matches!(loaded[0], LoadedLayer::Xray { radius, .. } if radius == single(50.0)));
    assert!(matches!(
        loaded[1],
        LoadedLayer::Parallax { strength, smoothing, .. } if strength == HALF && smoothing == ONE
    ));
}

#[test]
fn painted_masks_survive_a_reload() {
    let mut layer = image("/a.png");
    layer.effects_mut().unwrap().push(EditorEffect {
        kind: EditorEffectKind::Blur { radius: HALF },
        mask: texture(Some("/m.png"), Some(vec![9, 8])),
        enabled: true,
    });
    let masks = restore_painted_masks(2, &vec![image("/b.png"), layer]);
    assert_eq!(masks.len(), 1);
    assert_eq!((masks[0].layer, masks[0].effect), (1, 0));
    assert_eq!(masks[0].rgba, vec![9, 9, 9, 255, 8, 8, 8, 255]);
}

fn entry(id: &str, name: &str) -> LibraryEntry {
    LibraryEntry {
        id: id.to_string(),
        dir: format!("/lib/{id}"),
        name: name.to_string(),
        fps: 24,
        layer_count: 3,
        preview_path: None,
    }
}

fn app() -> EditorApp {
    EditorApp::new(Assignments::new(), vec![entry("ab", "Sea"), entry("cd", "")], false)
}

#[test]
fn the_editors_texts() {
    assert_eq!(hover_text(&entry("ab", "Sea")), "Sea -- 3 layer(s), 24 fps");
    assert_eq!(hover_text(&entry("ab", "")), "ab -- 3 layer(s), 24 fps");
    assert_eq!(list_row(0, "Image"), "#1 Image");
    let m = MonitorInfo { name: "DP-1".to_string(), width: 2560, height: 1440 };
    assert_eq!(monitor_button(&m), "DP-1 (2560x1440)");
    assert_eq!(paint_mask_file(77, 3), "wplinux-paint-mask-77-3.png");
    assert_eq!(file_label(&None), "not set");
    assert_eq!(file_label(&Some("/a/b.png".to_string())), "b.png");
    let shaders = vec![ShaderLibraryEntry { name: "fire".to_string(), path: "/s/f.wgsl".to_string() }];
    assert_eq!(shader_choice(&shaders, &Some("/s/f.wgsl".to_string())), "fire");
    assert_eq!(shader_choice(&shaders, &Some("/x/own.wgsl".to_string())), "own.wgsl");
    assert_eq!(shader_choice(&shaders, &None), "Select...");
    assert_eq!(shader_choice(&shaders, &Some("/".to_string())), "Select...");
}

#[test]
fn a_monitor_is_listed_once() {
    let mut a = app();
    let seen = |n: Option<&str>, w: u32| (n.map(|n| n.to_string()), w, 10u32);
    a.see_monitors(vec![seen(Some("A"), 1), seen(None, 2), seen(Some("B"), 3), seen(Some("A"), 4)]);
    let names: Vec<(&str, u32)> = a.monitors.iter().map(|m| (m.name.as_str(), m.width)).collect();
    assert_eq!(names, vec![("A", 1), ("B", 3)]);
}

#[test]
fn the_library_is_looked_through_when_it_comes_into_view() {
    let mut a = app();
    assert!(!a.settle_tab());
    a.tab = Tab::Editor;
    assert!(!a.settle_tab());
    a.tab = Tab::Wallpapers;
    assert!(a.settle_tab());
    assert!(!a.settle_tab());
    a.rescan_library(vec![Found {
        id: "x".to_string(),
        dir: "/lib/x".to_string(),
        is_dir: true,
        project: Some(("N".to_string(), 30, 1)),
        has_preview: false,
    }]);
    assert_eq!(a.library.len(), 1);
}

#[test]
fn assigning_tells_how_it_went() {
    let mut a = app();
    let file = a.assign("DP-1", "/lib/ab").unwrap();
    assert!(file.contains("DP-1") && file.contains("/lib/ab"));
    assert!(!a.assignment_saved(&Err("disk full".to_string())));
    assert_eq!(a.status, "Failed to save monitor assignment: disk full");
    assert!(a.assignment_saved(&Ok(())));
    a.assignment_pushed("DP-1", "/lib/ab", &Ok(()));
    assert_eq!(a.status, "Assigned DP-1 -> /lib/ab");
    a.assignment_pushed("DP-1", "/lib/ab", &Err("refused".to_string()));
    assert_eq!(a.status, "Assigned locally, but couldn't reach render-server: refused");
    assert_eq!(a.assignments.get("DP-1").as_deref(), Some("/lib/ab"));
}

#[test]
fn the_checkbox_shows_what_is_the_case() {
    let mut a = app();
    a.autostart_switched(true, &Ok(()), false);
    assert!(a.autostart_enabled);
    a.autostart_switched(false, &Err("denied".to_string()), true);
    assert!(a.autostart_enabled);
    assert_eq!(a.status, "Failed to update autostart: denied");
}

#[test]
fn deleting_asks_and_tells_how_it_went() {
    let mut a = app();
    a.delete_overlay = Some("/lib/ab".to_string());
    assert_eq!(
        a.delete_question("/lib/ab"),
        "\"Sea\" will be permanently deleted from disk. This can't be undone."
    );
    assert_eq!(a.wallpaper_name("/lib/cd"), "cd");
    assert_eq!(a.wallpaper_name("/lib/gone"), "/lib/gone");
    assert!(!a.deleted("/lib/ab", &Err("busy".to_string())));
    assert_eq!(a.status, "Failed to delete /lib/ab: busy");
    assert!(a.delete_overlay.is_none());
    assert!(a.deleted("/lib/ab", &Ok(())));
    assert_eq!(a.status, "Deleted /lib/ab");
}

#[test]
fn opening_and_saving_tell_how_they_went() {
    let mut a = app();
    a.draft.add_layer(LayerChoice::Image);
    a.open_library_entry(&entry("ab", "Sea"), Err("no file".to_string()));
    assert_eq!(a.status, "Failed to open /lib/ab: no file");
    assert_eq!((a.tab, a.draft.layers.len()), (Tab::Wallpapers, 1));
    a.open_library_entry(&entry("ab", "Sea"), Ok((vec![image("/a.png")], 12, "d".to_string())));
    assert_eq!(a.status, "Opened /lib/ab");
    assert_eq!((a.tab, a.draft.selected, a.draft.fps), (Tab::Editor, None, 12));
    assert_eq!((a.draft.name.as_str(), a.draft.description.as_str()), ("Sea", "d"));
    assert_eq!(a.save_id("fresh".to_string()), "ab");
    assert!(!a.saved("ab".to_string(), "/lib/ab", &Err("full".to_string())));
    assert_eq!(a.status, "Failed to save: full");

    a.new_project();
    assert_eq!((a.status.as_str(), a.draft.layers.len(), a.draft.fps), ("", 0, 30));
    assert_eq!(a.save_id("fresh".to_string()), "fresh");
    a.draft.add_layer(LayerChoice::Text);
    assert!(!a.saved("fresh".to_string(), "/lib/fresh", &Ok(())));
    assert_eq!(a.status, "Saved to /lib/fresh");
    assert_eq!(a.save_id("other".to_string()), "fresh");
    if let EditorLayer::Text { source, .. } = &mut a.draft.layers[0] {
        source.switch(SourceChoice::Command);
    }
    assert!(a.draft.has_command_layer());
    assert!(a.saved("fresh".to_string(), "/lib/fresh", &Ok(())));
}

#[test]
fn faults_of_a_manifest_are_told() {
    assert_eq!(manifest_path("/lib/ab"), "/lib/ab/project.json");
    assert_eq!(LoadError::Io("gone".to_string()).message(), "I/O error: gone");
    assert_eq!(LoadError::Json("EOF".to_string()).message(), "invalid project.json: EOF");
}
