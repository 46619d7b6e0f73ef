use chart_rs::lightweight_events::{
    event_f64, event_kind, event_optional_f64, event_string, map_lightweight_event_to_action,
    map_lightweight_event_to_visual_action, parse_trace_crosshair_mode,
    parse_trace_price_scale_mode, parse_trace_transformed_base_source, EventValue,
    InteractionAction, LightweightEvent, TraceCrosshairMode, TracePriceScaleMode,
    TraceTransformedBaseSource, VisualCorpusAction,
};

fn b(v: f64) -> u64 {
    v.to_bits()
}

fn num(v: f64) -> EventValue {
    EventValue::Number(b(v))
}

fn text(s: &str) -> EventValue {
    EventValue::Text(s.to_string())
}

fn event(fields: &[(&str, EventValue)]) -> LightweightEvent {
    LightweightEvent { fields: fields.iter().map(|(k, v)| (k.to_string(), v.clone())).collect() }
}

#[test]
fn field_readers_follow_key_order() {
    let e = event(&[("deltaX", num(3.0)), ("wheelDeltaX", text("x")), ("basePrice", EventValue::Null), ("base_price", num(7.0))]);
    assert_eq!(event_f64(&e, &["wheelDeltaX", "deltaX"]), None);
    assert_eq!(event_f64(&e, &["missing", "deltaX"]), Some(b(3.0)));
    assert_eq!(event_optional_f64(&e, &["basePrice", "wheelDeltaX", "base_price"]), Some(b(7.0)));
    assert_eq!(event_string(&e, &["wheelDeltaX"]), Some("x".to_string()));
    assert_eq!(event_string(&e, &["deltaX"]), None);
}

#[test]
fn event_kind_is_trimmed_and_lowercased() {
    assert_eq!(event_kind(&event(&[("type", text("  Wheel_Zoom\t"))])), Some("wheel_zoom".to_string()));
    assert_eq!(event_kind(&event(&[("kind", text("x")), ("event", text("Pinch"))])), Some("pinch".to_string()));
    assert_eq!(event_kind(&event(&[("type", num(1.0)), ("kind", text("x"))])), None);
    assert_eq!(event_kind(&event(&[])), None);
}

#[test]
fn wheel_events_become_zoom_or_pan() {
    let zoom = map_lightweight_event_to_action(&event(&[("type", text("wheel")), ("deltaY", num(-120.0)), ("anchorX", num(300.0))])).unwrap();
    assert_eq!(
        zoom,
        InteractionAction::WheelZoom { wheel_delta_y: b(-120.0), anchor_px: b(300.0), zoom_step_ratio: b(0.2), min_span_absolute: b(1e-6) }
    );
    let pan = map_lightweight_event_to_action(&event(&[("type", text("wheel")), ("deltaY", num(0.0)), ("deltaX", num(40.0))])).unwrap();
    assert_eq!(pan, InteractionAction::WheelPan { wheel_delta_x: b(40.0), pan_step_ratio: b(0.1) });
    let err = map_lightweight_event_to_action(&event(&[("type", text("wheel"))])).unwrap_err();
    assert_eq!(err, "wheel event missing delta_x");
    let err = map_lightweight_event_to_action(&event(&[("type", text("wheel_zoom"))])).unwrap_err();
    assert_eq!(err, "wheel_zoom event missing delta_y");
}

#[test]
fn interaction_events_map_with_defaults() {
    assert_eq!(
        map_lightweight_event_to_action(&event(&[("event", text("touch_move")), ("deltaX", num(80.0))])).unwrap(),
        InteractionAction::TouchDragPan { delta_x_px: b(80.0), delta_y_px: b(0.0) }
    );
    assert_eq!(
        map_lightweight_event_to_action(&event(&[("type", text("set_navigation")), ("barSpacingPx", num(8.0))])).unwrap(),
        InteractionAction::SetNavigation { right_offset_bars: b(0.0), bar_spacing_px: Some(b(8.0)) }
    );
    assert_eq!(
        map_lightweight_event_to_action(&event(&[("type", text("kinetic_step"))])).unwrap(),
        InteractionAction::StepKineticPan { delta_seconds: b(1.0) }
    );
    assert_eq!(
        map_lightweight_event_to_action(&event(&[("type", text("crosshair_mode")), ("mode", text("MAGNET"))])).unwrap(),
        InteractionAction::SetCrosshairMode { mode: TraceCrosshairMode::Magnet }
    );
    assert_eq!(
        map_lightweight_event_to_action(&event(&[("type", text("crosshair_leave"))])).unwrap(),
        InteractionAction::PointerLeave
    );
    assert_eq!(
        map_lightweight_event_to_action(&event(&[("type", text("crosshair_move")), ("x", num(250.0)), ("clientY", num(80.0))])).unwrap(),
        InteractionAction::PointerMove { x: b(250.0), y: b(80.0) }
    );
}

#[test]
fn interaction_event_errors_name_the_problem() {
    assert_eq!(
        map_lightweight_event_to_action(&event(&[("x", num(1.0))])).unwrap_err(),
        "lightweight capture event missing `type`/`event`/`kind`"
    );
    assert_eq!(
        map_lightweight_event_to_action(&event(&[("type", text("Teleport"))])).unwrap_err(),
        "unsupported lightweight event type `teleport`"
    );
    assert_eq!(
        map_lightweight_event_to_action(&event(&[("type", text("crosshair_mode")), ("mode", text("Fancy"))])).unwrap_err(),
        "unsupported crosshair mode `fancy` in lightweight event"
    );
    assert_eq!(
        map_lightweight_event_to_action(&event(&[("type", text("pointer_move")), ("y", num(1.0))])).unwrap_err(),
        "pointer_move event missing x"
    );
    assert_eq!(
        map_lightweight_event_to_action(&event(&[("type", text("pinch"))])).unwrap_err(),
        "pinch_zoom event missing factor/scale"
    );
}

#[test]
fn trace_names_parse_case_insensitively() {
    assert_eq!(parse_trace_price_scale_mode(&event(&[("priceScaleMode", text("Log"))])).unwrap(), TracePriceScaleMode::Log);
    assert_eq!(parse_trace_price_scale_mode(&event(&[("mode", text("indexed"))])).unwrap(), TracePriceScaleMode::IndexedTo100);
    assert_eq!(parse_trace_price_scale_mode(&event(&[])).unwrap_err(), "price_scale_mode event missing mode");
    assert_eq!(parse_trace_price_scale_mode(&event(&[("mode", text("cubic"))])).unwrap_err(), "unsupported price scale mode `cubic`");
    assert_eq!(parse_trace_transformed_base_source(&event(&[])).unwrap(), TraceTransformedBaseSource::LastVisibleData);
    assert_eq!(parse_trace_transformed_base_source(&event(&[("baseSource", text("FirstData"))])).unwrap(), TraceTransformedBaseSource::FirstData);
    assert_eq!(parse_trace_transformed_base_source(&event(&[("dynamicSource", text("middle"))])).unwrap_err(), "unsupported transformed base source `middle`");
    assert_eq!(parse_trace_crosshair_mode(&event(&[("mode", text("Hidden"))])).unwrap(), TraceCrosshairMode::Hidden);
    assert_eq!(parse_trace_crosshair_mode(&event(&[("mode", text("x"))])).unwrap_err(), "unsupported crosshair mode `x`");
}

#[test]
fn visual_events_map_to_corpus_actions() {
    assert_eq!(
        map_lightweight_event_to_visual_action(&event(&[("type", text("price_scale_mode")), ("mode", text("log"))])).unwrap(),
        VisualCorpusAction::SetPriceScaleMode { mode: TracePriceScaleMode::Log }
    );
    assert_eq!(
        map_lightweight_event_to_visual_action(&event(&[("event", text("axis_scale_price")), ("deltaY", num(120.0)), ("anchorY", num(200.0))])).unwrap(),
        VisualCorpusAction::AxisDragScalePrice { drag_delta_y_px: b(120.0), anchor_y_px: b(200.0), zoom_step_ratio: b(0.2), min_span_absolute: b(1e-6) }
    );
    assert_eq!(
        map_lightweight_event_to_visual_action(&event(&[("type", text("axis_scale_time")), ("deltaX", num(10.0))])).unwrap_err(),
        "axis_drag_scale_time event missing anchorX"
    );
    assert_eq!(
        map_lightweight_event_to_visual_action(&event(&[("type", text("time_visible_range")), ("from", num(10.0)), ("to", num(90.0))])).unwrap(),
        VisualCorpusAction::SetTimeVisibleRange { start: b(10.0), end: b(90.0) }
    );
    assert_eq!(
        map_lightweight_event_to_visual_action(&event(&[("type", text("transformed_base_behavior")), ("basePrice", num(100.0))])).unwrap(),
        VisualCorpusAction::SetTransformedBaseBehavior { explicit_base_price: Some(b(100.0)), dynamic_source: TraceTransformedBaseSource::LastVisibleData }
    );
    assert_eq!(
        map_lightweight_event_to_visual_action(&event(&[("type", text("autoscale_visible"))])).unwrap(),
        VisualCorpusAction::AutoscaleVisibleData
    );
    assert_eq!(
        map_lightweight_event_to_visual_action(&event(&[("type", text("zoom"))])).unwrap_err(),
        "unsupported lightweight visual event type `zoom`"
    );
}
