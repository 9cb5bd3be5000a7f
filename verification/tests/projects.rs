use wp_linux::project_format::{
    default_fps, Effect, EffectKind, Layer, Mask, TextFont, TextSource, Transform2D, HALF, ONE,
    ZERO,
};
use wp_linux::shader_params::{param_from_annotation, parse_shader_params, Annotation};

fn single(x: f32) -> u32 {
    x.to_bits()
}

fn effect(kind: EffectKind, enabled: bool) -> Effect {
    Effect { kind, mask: Mask::Unmasked, enabled }
}

fn smoke() -> EffectKind {
    EffectKind::Smoke {
        color: [single(0.6), single(0.3), single(0.9), single(1.0)],
        decay: single(0.97),
        radius: single(0.05),
    }
}

fn image(effects: Vec<Effect>) -> Layer {
    Layer::Image { path: "bg.png".to_string(), effects }
}

#[test]
fn a_disabled_smoke_effect_does_not_make_its_layer_dynamic() {
    let layer = Layer::Image {
        path: "bg.png".to_string(),
        effects: vec![Effect { kind: smoke(), mask: Mask::Unmasked, enabled: false }],
    };
    assert!(!layer.is_dynamic());
}

#[test]
fn an_enabled_smoke_effect_makes_its_layer_dynamic() {
    assert!(image(vec![effect(smoke(), true)]).is_dynamic());
}

#[test]
fn an_enabled_shader_effect_makes_an_adjustment_layer_dynamic() {
    let layer = Layer::Adjustment {
        effects: vec![Effect {
            kind: EffectKind::Shader {
                wgsl_path: "pulse.wgsl".to_string(),
                params: vec![single(1.0)],
            },
            mask: Mask::Unmasked,
            enabled: true,
        }],
    };
    assert!(layer.is_dynamic());
}

#[test]
fn effects_that_stand_still_leave_a_layer_static() {
    let vignette = EffectKind::Vignette { strength: single(0.6), softness: single(0.3) };
    let layer = Layer::Adjustment { effects: vec![effect(vignette, true)] };
    assert_eq!(layer.effects().len(), 1);
    assert!(!layer.is_dynamic());
    assert!(!image(vec![]).is_dynamic());
}

#[test]
fn moving_layers_are_dynamic() {
    assert!(Layer::Gif { path: String::new(), effects: vec![] }.is_dynamic());
    assert!(Layer::Xray {
        base: String::new(),
        overlay: String::new(),
        radius: ONE,
        effects: vec![]
    }
    .is_dynamic());
    assert!(Layer::Parallax {
        path: String::new(),
        strength: ZERO,
        smoothing: ZERO,
        effects: vec![]
    }
    .is_dynamic());
    let text = |source: TextSource| Layer::Text {
        x: HALF,
        y: HALF,
        font_size: HALF,
        color: [ONE; 4],
        source,
        font: TextFont::Bundled,
    };
    assert!(!text(TextSource::Literal { text: "hello".to_string() }).is_dynamic());
    assert!(text(TextSource::Clock { format: "%H:%M".to_string() }).is_dynamic());
    assert!(text(TextSource::Command { command: "date".to_string(), interval_secs: 60 })
        .is_dynamic());
}

#[test]
fn a_text_layer_has_no_effects() {
    let layer = Layer::Text {
        x: HALF,
        y: HALF,
        font_size: HALF,
        color: [ONE; 4],
        source: TextSource::Literal { text: String::new() },
        font: TextFont::Bundled,
    };
    assert!(layer.effects().is_empty());
}

#[test]
fn what_a_manifest_leaves_out_has_a_default() {
    assert_eq!(default_fps(), 30);
    assert!(matches!(Mask::default(), Mask::Unmasked));
    let t = Transform2D::default();
    assert_eq!(
        (t.x, t.y, t.scale, t.rotation),
        (single(0.5), single(0.5), single(1.0), single(0.0))
    );
}

#[test]
fn parse_shader_params_reads_annotated_f32_fields_in_order() {
    let source = r#"
struct ShaderEffectParams {
    cursor: vec2<f32>,
    time: f32,
    canvas_aspect: f32,
    u_hue_shift: f32, // {"label": "Hue shift", "default": 0.25, "range": [-1.0, 1.0]}
    u_strength: f32, // {"default": 1.0, "range": [0.0, 2.0]}
};
"#;
    let specs = parse_shader_params(source).expect("should parse");
    assert_eq!(specs.len(), 2);
    assert_eq!(specs[0].name, "u_hue_shift");
    assert_eq!(specs[0].label, "Hue shift");
    assert_eq!(f64::from_bits(specs[0].default), 0.25);
    assert_eq!(
        (f64::from_bits(specs[0].range.0), f64::from_bits(specs[0].range.1)),
        (-1.0, 1.0)
    );
    assert_eq!(specs[1].name, "u_strength");
    assert_eq!(specs[1].label, "u_strength");
}

#[test]
fn parameters_of_two_parts_stand_one_behind_the_other() {
    let a = "u_a: f32, // {\"default\": 1.0, \"range\": [0.0, 2.0]}\r";
    let b = "// the rest\nu_b: f32, // {\"default\": 3.0, \"range\": [0.0, 4.0]}\n";
    let names = |source: &str| -> Vec<String> {
        parse_shader_params(source).unwrap().into_iter().map(|p| p.name).collect()
    };
    assert_eq!(names(a), vec!["u_a"]);
    assert_eq!(names(&format!("{a}\n{b}")), vec!["u_a", "u_b"]);
    assert_eq!(names(&format!("{b}\n{a}")), vec!["u_b", "u_a"]);
    assert_eq!(names(&format!("\n{b}")), vec!["u_b"]);
    let wrong = "u_c: i32, // {}";
    let error = parse_shader_params(wrong).unwrap_err();
    assert_eq!(parse_shader_params(&format!("{wrong}\n{a}")).unwrap_err(), error);
    assert!(parse_shader_params(&format!("{a}\n{wrong}")).unwrap_err().contains("line 2"));
}

#[test]
fn parse_shader_params_ignores_ordinary_comments() {
    let source = r#"
struct ShaderEffectParams {
    cursor: vec2<f32>, // just the cursor, nothing to see here
    time: f32,
};
"#;
    assert_eq!(parse_shader_params(source).unwrap(), Vec::new());
}

#[test]
fn parse_shader_params_rejects_a_non_f32_annotated_field() {
    let source =
        r#"u_tint: vec4<f32>, // {"label": "Tint", "default": 0.0, "range": [0.0, 1.0]}"#;
    let err = parse_shader_params(source).unwrap_err();
    assert!(err.contains("u_tint"), "error should name the field: {err}");
    assert!(err.contains("vec4"), "error should mention the unsupported type: {err}");
}

#[test]
fn parse_shader_params_rejects_malformed_json_annotation() {
    let source = r#"u_amount: f32, // {"label": "Amount", "default": }"#;
    assert!(parse_shader_params(source).is_err());
}

#[test]
fn parse_shader_params_rejects_annotation_missing_range() {
    let source = r#"u_amount: f32, // {"label": "Amount", "default": 0.5}"#;
    let err = parse_shader_params(source).unwrap_err();
    assert!(err.contains("range"), "error should mention range: {err}");
}

#[test]
fn the_example_of_a_pulsing_shader_has_two_parameters() {
    let source = r#"struct ShaderEffectParams {
    cursor: vec2<f32>,
    time: f32,
    canvas_aspect: f32,
    u_speed: f32,    // {"label": "Speed", "default": 2.0, "range": [0.1, 10.0]}
    u_strength: f32, // {"label": "Strength", "default": 0.3, "range": [0.0, 1.0]}
};
"#;
    let specs = parse_shader_params(source).unwrap();
    let labels: Vec<&str> = specs.iter().map(|s| s.label.as_str()).collect();
    assert_eq!(labels, vec!["Speed", "Strength"]);
    assert_eq!(f64::from_bits(specs[1].default), 0.3);
}

#[test]
fn every_fault_of_an_annotation_is_told() {
    let cases = [
        r#"u_a: f32, // {"range": [0.0, 1.0]}"#,
        r#"u_a: f32, // {"default": "x", "range": [0.0, 1.0]}"#,
        r#"u_a: f32, // {"default": 0.5, "range": [0.0]}"#,
        r#"u_a: f32, // {"default": 0.5, "range": [0.0, "x"]}"#,
        r#"nothing // {"default": 0.5, "range": [0.0, 1.0]}"#,
    ];
    for source in cases {
        assert!(parse_shader_params(source).is_err(), "{source}");
    }
}

#[test]
fn an_annotation_is_a_parameter() {
    let bits = |x: f64| x.to_bits();
    let annotation = Annotation {
        error: None,
        label: None,
        default: Some(bits(0.5)),
        range: Some(vec![Some(bits(0.0)), Some(bits(2.0))]),
    };
    let spec = param_from_annotation("u_a", 3, annotation).unwrap();
    assert_eq!((spec.name.as_str(), spec.label.as_str()), ("u_a", "u_a"));
    assert_eq!((spec.default, spec.range), (bits(0.5), (bits(0.0), bits(2.0))));
}
