use chart_rs::axis_label::{
    PriceAxisDisplayMode, PriceAxisLabelConfig, PriceAxisLabelPolicy, TimeAxisLabelConfig,
    TimeAxisLabelPolicy, TimeAxisSessionConfig, TimeAxisTimeZone,
};
use chart_rs::error::ChartError;
use chart_rs::invalidation::InvalidationTopic;
use chart_rs::render_primitives::Color;
use chart_rs::render_style::RenderStyle;
use chart_rs::render_style_invalidation::{
    resolve_render_style_invalidation, RenderStyleInvalidationDecision,
};
use chart_rs::time_scale_input_validation::{
    validate_pan_pixel_delta, validate_touch_drag_deltas, validate_wheel_pan_inputs,
    validate_wheel_zoom_inputs, validate_zoom_inputs, InteractionInputBehavior,
};
use chart_rs::zoom_factor::resolve_pinch_zoom_factor;
use chart_rs::validation::{
    validate_price_axis_label_config, validate_render_style, validate_time_axis_label_config,
    validate_time_axis_session_config,
};

fn b(v: f64) -> u64 {
    v.to_bits()
}

fn data_text(err: ChartError) -> String {
    match err {
        ChartError::InvalidData(m) => m,
        other => panic!("unexpected error {other:?}"),
    }
}

#[test]
fn zoom_input_validation_rejects_invalid_factor() {
    let err = validate_zoom_inputs(b(0.0), b(10.0), b(1.0)).expect_err("factor must fail");
    assert!(err.message().contains("zoom factor"));
}

#[test]
fn pan_pixel_validation_rejects_non_finite() {
    let err = validate_pan_pixel_delta(b(f64::NAN)).expect_err("nan pan delta must fail");
    assert!(err.message().contains("pan pixel delta"));
}

#[test]
fn wheel_pan_validation_rejects_non_positive_step_ratio() {
    let err = validate_wheel_pan_inputs(b(120.0), b(0.0)).expect_err("step ratio must fail");
    assert!(err.message().contains("wheel pan step ratio"));
}

#[test]
fn wheel_zoom_validation_rejects_non_positive_step_ratio() {
    let err = validate_wheel_zoom_inputs(b(120.0), b(-0.1)).expect_err("step ratio must fail");
    assert!(err.message().contains("wheel zoom step ratio"));
}

#[test]
fn zoom_inputs_check_anchor_then_min_span() {
    assert!(validate_zoom_inputs(b(1.5), b(10.0), b(1.0)).is_ok());
    let err = validate_zoom_inputs(b(1.5), b(f64::INFINITY), b(0.0)).unwrap_err();
    assert_eq!(data_text(err), "zoom anchor px must be finite");
    let err = validate_zoom_inputs(b(1.5), b(3.0), b(-1.0)).unwrap_err();
    assert_eq!(data_text(err), "zoom min span must be finite and > 0");
}

#[test]
fn touch_drag_deltas_are_checked_only_on_enabled_axes() {
    let horizontal = InteractionInputBehavior {
        handle_scroll: true,
        scroll_horz_touch_drag: true,
        scroll_vert_touch_drag: false,
    };
    assert!(validate_touch_drag_deltas(horizontal, b(1.0), b(f64::NAN)).is_ok());
    let err = validate_touch_drag_deltas(horizontal, b(f64::NAN), b(0.0)).unwrap_err();
    assert!(data_text(err).starts_with("touch drag horizontal delta"));
    let vertical = InteractionInputBehavior { scroll_horz_touch_drag: false, scroll_vert_touch_drag: true, ..horizontal };
    let err = validate_touch_drag_deltas(vertical, b(f64::NAN), b(f64::INFINITY)).unwrap_err();
    assert!(data_text(err).starts_with("touch drag vertical delta"));
}

#[test]
fn default_render_style_is_valid() {
    let style = RenderStyle::default();
    let checked = validate_render_style(style).expect("default style is valid");
    assert!(checked == style);
}

#[test]
fn render_style_reports_first_failing_requirement() {
    let style = RenderStyle { grid_line_width: b(0.0), axis_line_width: b(-1.0), ..RenderStyle::default() };
    let err = validate_render_style(style).unwrap_err();
    assert_eq!(data_text(err), "render style `grid_line_width` must be finite and > 0");

    let style = RenderStyle { time_axis_label_offset_y_px: b(-2.0), ..RenderStyle::default() };
    let err = validate_render_style(style).unwrap_err();
    assert_eq!(data_text(err), "render style `time_axis_label_offset_y_px` must be finite and >= 0");

    let style = RenderStyle { crosshair_vertical_line_width: Some(b(f64::NAN)), ..RenderStyle::default() };
    let err = validate_render_style(style).unwrap_err();
    assert_eq!(data_text(err), "render style `crosshair_vertical_line_width` must be finite and > 0");

    let style = RenderStyle { last_price_label_box_min_width_px: b(0.0), ..RenderStyle::default() };
    let err = validate_render_style(style).unwrap_err();
    assert_eq!(data_text(err), "render style `last_price_label_box_min_width_px` must be finite and > 0");
}

#[test]
fn render_style_rejects_out_of_range_colors_before_sizes() {
    let style = RenderStyle {
        crosshair_time_label_box_color: Some(Color::rgb(b(1.5), b(0.0), b(0.0))),
        grid_line_width: b(0.0),
        ..RenderStyle::default()
    };
    let err = validate_render_style(style).unwrap_err();
    assert_eq!(data_text(err), "color channels must be finite and in [0, 1]");
    assert!(Color::rgb(b(0.0), b(0.5), b(1.0)).validate().is_ok());
    assert!(Color::rgb(b(-0.1), b(0.5), b(1.0)).validate().is_err());
}

#[test]
fn zero_widths_compare_equal_whatever_their_sign() {
    let a = RenderStyle { crosshair_label_box_border_width_px: b(0.0), ..RenderStyle::default() };
    let c = RenderStyle { crosshair_label_box_border_width_px: b(-0.0), ..RenderStyle::default() };
    assert!(a == c);
    let d = RenderStyle { crosshair_label_prefix: "$", ..RenderStyle::default() };
    assert!(!(a == d));
}

#[test]
fn resolver_returns_none_when_style_is_identical() {
    let style = RenderStyle::default();
    let decision = resolve_render_style_invalidation(style, style);
    assert!(matches!(decision, RenderStyleInvalidationDecision::Nothing));
}

#[test]
fn resolver_returns_full_when_layout_changes() {
    let previous = RenderStyle::default();
    let next = RenderStyle {
        price_axis_width_px: b(f64::from_bits(previous.price_axis_width_px) + 5.0),
        ..previous
    };
    let decision = resolve_render_style_invalidation(previous, next);
    assert!(matches!(decision, RenderStyleInvalidationDecision::Full));
}

#[test]
fn resolver_returns_light_topics_for_non_layout_changes() {
    let previous = RenderStyle::default();
    let next = RenderStyle { show_price_axis_labels: !previous.show_price_axis_labels, ..previous };
    let decision = resolve_render_style_invalidation(previous, next);
    let RenderStyleInvalidationDecision::Light(topics) = decision else {
        panic!("expected light invalidation");
    };
    assert!(topics.contains_topic(InvalidationTopic::Style));
    assert!(topics.contains_topic(InvalidationTopic::Axis));
    assert!(topics.contains_topic(InvalidationTopic::Series));
    assert!(topics.contains_topic(InvalidationTopic::Cursor));
    assert!(!topics.contains_topic(InvalidationTopic::General));
    assert!(!topics.contains_topic(InvalidationTopic::TimeScale));
    assert!(!topics.contains_topic(InvalidationTopic::PriceScale));
    assert!(!topics.contains_topic(InvalidationTopic::PaneLayout));
    assert!(!topics.contains_topic(InvalidationTopic::Plugin));
}

fn session(start_hour: u8, start_minute: u8, end_hour: u8, end_minute: u8) -> TimeAxisSessionConfig {
    TimeAxisSessionConfig { start_hour, start_minute, end_hour, end_minute }
}

#[test]
fn session_config_checks_bounds_then_distinct_ends() {
    assert!(validate_time_axis_session_config(session(9, 30, 16, 0)).is_ok());
    let err = validate_time_axis_session_config(session(24, 0, 16, 0)).unwrap_err();
    assert_eq!(data_text(err), "time-axis session `start_hour` must be < 24");
    let err = validate_time_axis_session_config(session(9, 60, 16, 0)).unwrap_err();
    assert_eq!(data_text(err), "time-axis session `start_minute` must be < 60");
    let err = validate_time_axis_session_config(session(9, 0, 30, 0)).unwrap_err();
    assert_eq!(data_text(err), "time-axis session `end_hour` must be < 24");
    let err = validate_time_axis_session_config(session(9, 0, 16, 75)).unwrap_err();
    assert_eq!(data_text(err), "time-axis session `end_minute` must be < 60");
    let err = validate_time_axis_session_config(session(9, 30, 9, 30)).unwrap_err();
    assert_eq!(data_text(err), "time-axis session start/end must not be equal");
    assert_eq!(session(9, 30, 16, 5).start_minute_of_day(), 570);
    assert_eq!(session(9, 30, 16, 5).end_minute_of_day(), 965);
}

#[test]
fn time_axis_label_config_checks_precision_offset_and_session() {
    let ok = TimeAxisLabelConfig {
        policy: TimeAxisLabelPolicy::LogicalDecimal { precision: 12 },
        timezone: TimeAxisTimeZone::FixedOffsetMinutes { minutes: -840 },
        session: Some(session(9, 30, 16, 0)),
    };
    assert_eq!(validate_time_axis_label_config(ok).unwrap(), ok);
    let err = validate_time_axis_label_config(TimeAxisLabelConfig {
        policy: TimeAxisLabelPolicy::LogicalDecimal { precision: 13 },
        ..ok
    })
    .unwrap_err();
    assert_eq!(data_text(err), "time-axis decimal precision must be <= 12");
    let err = validate_time_axis_label_config(TimeAxisLabelConfig {
        timezone: TimeAxisTimeZone::FixedOffsetMinutes { minutes: 841 },
        ..ok
    })
    .unwrap_err();
    assert_eq!(data_text(err), "time-axis timezone offset must be between -840 and 840 minutes");
    let err = validate_time_axis_label_config(TimeAxisLabelConfig {
        policy: TimeAxisLabelPolicy::UtcAdaptive,
        timezone: TimeAxisTimeZone::Utc,
        session: Some(session(9, 30, 9, 30)),
    })
    .unwrap_err();
    assert_eq!(data_text(err), "time-axis session start/end must not be equal");
}

#[test]
fn price_axis_label_config_checks_precision_min_move_and_base_price() {
    let ok = PriceAxisLabelConfig {
        policy: PriceAxisLabelPolicy::MinMove { min_move: b(0.25), trim_trailing_zeros: true },
        display_mode: PriceAxisDisplayMode::Percentage { base_price: Some(b(100.0)) },
    };
    assert_eq!(validate_price_axis_label_config(ok).unwrap(), ok);
    let err = validate_price_axis_label_config(PriceAxisLabelConfig {
        policy: PriceAxisLabelPolicy::FixedDecimals { precision: 13 },
        ..ok
    })
    .unwrap_err();
    assert_eq!(data_text(err), "price-axis decimal precision must be <= 12");
    let err = validate_price_axis_label_config(PriceAxisLabelConfig {
        policy: PriceAxisLabelPolicy::MinMove { min_move: b(0.0), trim_trailing_zeros: false },
        ..ok
    })
    .unwrap_err();
    assert_eq!(data_text(err), "price-axis min_move must be finite and > 0");
    let err = validate_price_axis_label_config(PriceAxisLabelConfig {
        policy: PriceAxisLabelPolicy::Adaptive,
        display_mode: PriceAxisDisplayMode::IndexedTo100 { base_price: Some(b(-0.0)) },
    })
    .unwrap_err();
    assert_eq!(data_text(err), "price-axis display base_price must be finite and != 0");
    assert!(validate_price_axis_label_config(PriceAxisLabelConfig {
        policy: PriceAxisLabelPolicy::Adaptive,
        display_mode: PriceAxisDisplayMode::IndexedTo100 { base_price: None },
    })
    .is_ok());
}

#[test]
fn pinch_factor_resolver_returns_none_for_unity_factor() {
    let factor = resolve_pinch_zoom_factor(b(1.0)).expect("factor");
    assert!(factor.is_none());
}

#[test]
fn pinch_factor_resolver_rejects_non_positive_or_non_finite() {
    let err = resolve_pinch_zoom_factor(b(0.0)).expect_err("zero must fail");
    assert!(err.message().contains("pinch zoom factor"));

    let err = resolve_pinch_zoom_factor(b(f64::NAN)).expect_err("nan must fail");
    assert!(err.message().contains("pinch zoom factor"));
}

#[test]
fn pinch_factor_within_one_epsilon_is_no_zoom() {
    for x in [1.0 + f64::EPSILON, 1.0 - f64::EPSILON, 1.0 - f64::EPSILON / 2.0] {
        assert!((x - 1.0f64).abs() <= f64::EPSILON);
        assert_eq!(resolve_pinch_zoom_factor(b(x)).unwrap(), None);
    }
    for x in [1.0 + 2.0 * f64::EPSILON, 1.0 - 1.5 * f64::EPSILON, 2.0, 0.5] {
        assert!((x - 1.0f64).abs() > f64::EPSILON);
        assert_eq!(resolve_pinch_zoom_factor(b(x)).unwrap(), Some(b(x)));
    }
}
