use chart_rs::axis_label::{PriceAxisDisplayMode, PriceAxisLabelConfig, PriceAxisLabelPolicy};
use chart_rs::fixture_tools::{
    apply_display_base_override, apply_style_overrides, parse_args,
    sanitize_fixture_id_for_relpath, usage_message, CliArgs, CliCommand,
    FixtureDisplayBaseOverride, RenderStyleOverrides,
};
use chart_rs::render_style::RenderStyle;

fn args(items: &[&str]) -> Vec<String> {
    items.iter().map(|s| s.to_string()).collect()
}

#[test]
fn sanitize_lowercases_and_replaces_unsafe_characters() {
    assert_eq!(sanitize_fixture_id_for_relpath("LWC Fixture 01"), "lwc-fixture-01");
    assert_eq!(sanitize_fixture_id_for_relpath("a_b-C/d"), "a_b-c-d");
}

#[test]
fn sanitize_trims_dashes_and_falls_back_when_empty() {
    assert_eq!(sanitize_fixture_id_for_relpath("--abc--"), "abc");
    assert_eq!(sanitize_fixture_id_for_relpath("  !! "), "lwc-visual-fixture");
    assert_eq!(sanitize_fixture_id_for_relpath(""), "lwc-visual-fixture");
    assert_eq!(sanitize_fixture_id_for_relpath("é-x"), "x");
}

#[test]
fn parse_args_uses_defaults_without_options() {
    let parsed = parse_args(&[]).unwrap();
    assert_eq!(
        parsed,
        CliCommand::Run(CliArgs {
            manifest_path: "tests/fixtures/axis_section_sizing/axis_section_sizing_corpus.json".to_string(),
            output_root: "tests/fixtures/axis_section_sizing/reference_png".to_string(),
            only_fixture_id: None,
        })
    );
}

#[test]
fn parse_args_reads_option_values() {
    let parsed = parse_args(&args(&["--manifest", "m.json", "--only", "fx-1", "--output-root", "out"])).unwrap();
    assert_eq!(
        parsed,
        CliCommand::Run(CliArgs {
            manifest_path: "m.json".to_string(),
            output_root: "out".to_string(),
            only_fixture_id: Some("fx-1".to_string()),
        })
    );
    assert_eq!(parse_args(&args(&["--only", "a", "-h"])).unwrap(), CliCommand::Help);
    assert_eq!(parse_args(&args(&["--help", "--bogus"])).unwrap(), CliCommand::Help);
}

#[test]
fn parse_args_reports_missing_values_and_unknown_arguments() {
    assert_eq!(parse_args(&args(&["--manifest"])).unwrap_err(), "missing value for --manifest");
    assert_eq!(parse_args(&args(&["--output-root"])).unwrap_err(), "missing value for --output-root");
    assert_eq!(parse_args(&args(&["--only"])).unwrap_err(), "missing value for --only");
    let err = parse_args(&args(&["--bogus"])).unwrap_err();
    assert_eq!(err, format!("unknown argument `--bogus`\n\n{}", usage_message()));
    assert!(usage_message().starts_with("Usage: cargo run --features cairo-backend"));
    assert!(usage_message().contains("--only <fixture-id>"));
}

fn no_overrides() -> RenderStyleOverrides {
    RenderStyleOverrides {
        price_axis_width_px: None,
        time_axis_height_px: None,
        price_axis_label_font_size_px: None,
        price_axis_label_padding_right_px: None,
        time_axis_label_font_size_px: None,
        major_time_label_font_size_px: None,
        time_axis_label_offset_y_px: None,
        major_time_label_offset_y_px: None,
        time_axis_tick_mark_length_px: None,
        major_time_tick_mark_length_px: None,
        show_time_axis_tick_marks: None,
        show_major_time_tick_marks: None,
        show_last_price_label: None,
        show_last_price_line: None,
    }
}

#[test]
fn style_overrides_replace_only_given_values() {
    let mut style = RenderStyle::default();
    apply_style_overrides(&mut style, &no_overrides());
    assert!(style == RenderStyle::default());
    let overrides = RenderStyleOverrides {
        price_axis_width_px: Some(90.0f64.to_bits()),
        show_last_price_line: Some(false),
        ..no_overrides()
    };
    apply_style_overrides(&mut style, &overrides);
    assert_eq!(f64::from_bits(style.price_axis_width_px), 90.0);
    assert!(!style.show_last_price_line);
    assert_eq!(style.time_axis_height_px, RenderStyle::default().time_axis_height_px);
}

#[test]
fn display_base_override_touches_only_relative_modes() {
    let mut config = PriceAxisLabelConfig {
        policy: PriceAxisLabelPolicy::Adaptive,
        display_mode: PriceAxisDisplayMode::Percentage { base_price: None },
    };
    apply_display_base_override(&mut config, FixtureDisplayBaseOverride::NegInf);
    assert_eq!(config.display_mode, PriceAxisDisplayMode::Percentage { base_price: Some(f64::NEG_INFINITY.to_bits()) });
    let mut normal = PriceAxisLabelConfig { policy: PriceAxisLabelPolicy::Adaptive, display_mode: PriceAxisDisplayMode::Normal };
    apply_display_base_override(&mut normal, FixtureDisplayBaseOverride::Zero);
    assert_eq!(normal.display_mode, PriceAxisDisplayMode::Normal);
    assert!(f64::from_bits(FixtureDisplayBaseOverride::NaN.to_f64()).is_nan());
    assert_eq!(FixtureDisplayBaseOverride::PosInf.to_f64(), f64::INFINITY.to_bits());
}
