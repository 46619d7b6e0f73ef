use chart_rs::lightweight_events::{
    EventValue, InteractionAction, LightweightEvent, TracePriceScaleMode, VisualCorpusAction,
};
use chart_rs::series::DataPoint;
use chart_rs::trace_import::{
    import_interaction_capture, import_lightweight_interaction_capture, import_price_capture,
    import_time_capture, CaptureStep, CapturedInteractionEvent, DifferentialPoint,
    InteractionExpectation, LightweightInteractionCaptureFile, LightweightInteractionCaptureScenario,
    PriceAction, PriceExpectation, PriceScenarioOf, Scenario, TimeAction, TimeExpectation,
    TraceFileOf,
};
use chart_rs::visual_import::{
    import_lightweight_visual_capture, DifferentialPriceRange, DifferentialTimeRange,
    DifferentialViewport, LightweightVisualCaptureFile, LightweightVisualCaptureFixture,
    VisualCorpusTolerance,
};

fn b(v: f64) -> u64 {
    v.to_bits()
}

fn num(v: f64) -> EventValue {
    EventValue::Number(b(v))
}

fn text(s: &str) -> EventValue {
    EventValue::Text(s.to_string())
}

fn event(fields: &[(&str, EventValue)]) -> LightweightEvent {
    LightweightEvent { fields: fields.iter().map(|(k, v)| (k.to_string(), v.clone())).collect() }
}

fn no_expectation() -> InteractionExpectation {
    InteractionExpectation {
        visible_start: None,
        visible_end: None,
        visible_span: None,
        scroll_position_bars: None,
        kinetic_active: None,
        kinetic_velocity_time_per_sec: None,
        crosshair_visible: None,
        crosshair_x: None,
        crosshair_y: None,
        crosshair_snapped_x: None,
        crosshair_snapped_y: None,
        crosshair_snapped_time: None,
        crosshair_snapped_price: None,
    }
}

#[test]
fn import_time_capture_maps_observed_to_expect() {
    let capture = TraceFileOf {
        trace_name: "t".to_owned(),
        source: "lightweight".to_owned(),
        source_notes: "note".to_owned(),
        viewport: DifferentialViewport { width: 1000, height: 500 },
        time_range: DifferentialTimeRange { start: b(0.0), end: b(100.0) },
        price_range: DifferentialPriceRange { min: b(0.0), max: b(1.0) },
        tolerance: b(1e-6),
        scenarios: vec![Scenario {
            id: "s1".to_owned(),
            points: vec![],
            steps: vec![CaptureStep {
                action: TimeAction::SetRightOffsetPx { value: b(100.0) },
                observed: TimeExpectation {
                    visible_start: Some(b(10.0)),
                    visible_end: Some(b(110.0)),
                    visible_span: Some(b(100.0)),
                    right_margin_px: Some(b(100.0)),
                    scroll_position_bars: Some(b(1.0)),
                },
            }],
        }],
    };

    let imported = import_time_capture(capture);
    assert_eq!(imported.scenarios.len(), 1);
    assert_eq!(imported.scenarios[0].steps.len(), 1);
    assert!(imported.scenarios[0].steps[0].expect.is_some());
}

#[test]
fn import_interaction_capture_maps_observed_to_expect() {
    let capture = TraceFileOf {
        trace_name: "interaction".to_owned(),
        source: "lightweight".to_owned(),
        source_notes: "note".to_owned(),
        viewport: DifferentialViewport { width: 800, height: 400 },
        time_range: DifferentialTimeRange { start: b(0.0), end: b(100.0) },
        price_range: DifferentialPriceRange { min: b(0.0), max: b(100.0) },
        tolerance: b(1e-6),
        scenarios: vec![Scenario {
            id: "s1".to_owned(),
            points: vec![],
            steps: vec![CaptureStep {
                action: InteractionAction::PointerLeave,
                observed: InteractionExpectation { crosshair_visible: Some(false), ..no_expectation() },
            }],
        }],
    };

    let imported = import_interaction_capture(capture);
    assert_eq!(imported.scenarios.len(), 1);
    assert_eq!(imported.scenarios[0].steps.len(), 1);
    assert!(imported.scenarios[0].steps[0].expect.is_some());
}

#[test]
fn import_price_capture_keeps_probes_and_header() {
    let observed = PriceExpectation {
        base_value: Some(b(100.0)),
        price_domain_start: None,
        price_domain_end: None,
        price_domain_span: None,
        probe_price_pixel: None,
        probe_pixel_price: None,
    };
    let capture = TraceFileOf {
        trace_name: "price".to_owned(),
        source: "lightweight".to_owned(),
        source_notes: "note".to_owned(),
        viewport: DifferentialViewport { width: 800, height: 400 },
        time_range: DifferentialTimeRange { start: b(0.0), end: b(100.0) },
        price_range: DifferentialPriceRange { min: b(0.0), max: b(100.0) },
        tolerance: b(1e-6),
        scenarios: vec![PriceScenarioOf {
            id: "p1".to_owned(),
            points: vec![DifferentialPoint { time: b(1.0), value: b(2.0) }],
            probe_price: Some(b(50.0)),
            probe_pixel: None,
            steps: vec![CaptureStep { action: PriceAction::AutoscaleVisibleData, observed }],
        }],
    };
    let imported = import_price_capture(capture);
    assert_eq!(imported.trace_name, "price");
    assert_eq!(imported.scenarios[0].probe_price, Some(b(50.0)));
    assert_eq!(imported.scenarios[0].steps[0].action, PriceAction::AutoscaleVisibleData);
    assert_eq!(imported.scenarios[0].steps[0].expect, Some(observed));
}

#[test]
fn import_lwc_interaction_capture_maps_wheel_touch_crosshair_events() {
    let capture = LightweightInteractionCaptureFile {
        trace_name: Some("raw-capture".to_owned()),
        source_notes: Some("captured from lwc".to_owned()),
        viewport: DifferentialViewport { width: 1000, height: 500 },
        time_range: DifferentialTimeRange { start: b(0.0), end: b(100.0) },
        price_range: DifferentialPriceRange { min: b(0.0), max: b(100.0) },
        tolerance: Some(b(1e-6)),
        points: vec![
            DifferentialPoint { time: b(0.0), value: b(10.0) },
            DifferentialPoint { time: b(10.0), value: b(20.0) },
        ],
        scenarios: vec![],
        events: vec![
            CapturedInteractionEvent {
                event: event(&[
                    ("type", text("wheel")),
                    ("deltaY", num(-120.0)),
                    ("anchorX", num(300.0)),
                    ("zoomStepRatio", num(0.2)),
                    ("minSpanAbsolute", num(1e-6)),
                    ("observed", EventValue::Other),
                ]),
                expectation: Ok(Some(InteractionExpectation { visible_span: Some(b(80.0)), ..no_expectation() })),
            },
            CapturedInteractionEvent {
                event: event(&[("type", text("touch_move")), ("deltaX", num(40.0)), ("deltaY", num(5.0))]),
                expectation: Ok(None),
            },
            CapturedInteractionEvent {
                event: event(&[("event", text("crosshair_mode")), ("mode", text("magnet"))]),
                expectation: Ok(None),
            },
            CapturedInteractionEvent {
                event: event(&[("kind", text("crosshair_move")), ("x", num(250.0)), ("y", num(120.0))]),
                expectation: Ok(None),
            },
        ],
    };

    let trace = import_lightweight_interaction_capture(capture).expect("import lightweight capture");
    assert_eq!(trace.scenarios.len(), 1);
    assert_eq!(trace.scenarios[0].steps.len(), 4);

    assert!(matches!(trace.scenarios[0].steps[0].action, InteractionAction::WheelZoom { .. }));
    assert!(matches!(trace.scenarios[0].steps[1].action, InteractionAction::TouchDragPan { .. }));
    assert!(matches!(trace.scenarios[0].steps[2].action, InteractionAction::SetCrosshairMode { .. }));
    assert!(matches!(trace.scenarios[0].steps[3].action, InteractionAction::PointerMove { .. }));

    let observed = trace.scenarios[0].steps[0].expect.as_ref().expect("observed payload should map to expect");
    assert_eq!(observed.visible_span, Some(b(80.0)));
}

#[test]
fn lwc_interaction_import_numbers_scenarios_and_reports_errors() {
    let capture = LightweightInteractionCaptureFile {
        trace_name: None,
        source_notes: None,
        viewport: DifferentialViewport { width: 10, height: 10 },
        time_range: DifferentialTimeRange { start: b(0.0), end: b(1.0) },
        price_range: DifferentialPriceRange { min: b(0.0), max: b(1.0) },
        tolerance: None,
        points: vec![],
        scenarios: vec![
            LightweightInteractionCaptureScenario { id: None, points: vec![], events: vec![] },
            LightweightInteractionCaptureScenario { id: Some("named".to_owned()), points: vec![], events: vec![] },
        ],
        events: vec![],
    };
    let trace = import_lightweight_interaction_capture(capture).unwrap();
    assert_eq!(trace.trace_name, "lightweight-real-capture-interaction");
    assert_eq!(trace.source, "lightweight-charts-v5.1-capture");
    assert_eq!(trace.tolerance, b(1e-6));
    assert_eq!(trace.scenarios[0].id, "lightweight-scenario-1");
    assert_eq!(trace.scenarios[1].id, "named");

    let failing = LightweightInteractionCaptureFile {
        trace_name: None,
        source_notes: None,
        viewport: DifferentialViewport { width: 10, height: 10 },
        time_range: DifferentialTimeRange { start: b(0.0), end: b(1.0) },
        price_range: DifferentialPriceRange { min: b(0.0), max: b(1.0) },
        tolerance: None,
        points: vec![],
        scenarios: vec![],
        events: vec![CapturedInteractionEvent {
            event: event(&[("type", text("pointer_leave"))]),
            expectation: Err("invalid observed/expect payload: bad".to_owned()),
        }],
    };
    assert_eq!(import_lightweight_interaction_capture(failing).unwrap_err(), "invalid observed/expect payload: bad");
}

#[test]
fn import_lwc_visual_capture_maps_events_into_visual_corpus() {
    let capture = LightweightVisualCaptureFile {
        trace_name: Some("visual-raw".to_owned()),
        source_notes: None,
        viewport: None,
        time_range: None,
        price_range: None,
        tolerance: Some(VisualCorpusTolerance { max_channel_abs_diff: 2, mean_channel_abs_diff: b(0.5) }),
        points: vec![],
        candles: vec![],
        time_axis_label_config: None,
        price_axis_label_config: None,
        events: vec![],
        fixtures: vec![LightweightVisualCaptureFixture {
            id: Some("LWC Fixture 01".to_owned()),
            description: Some("visual fixture".to_owned()),
            viewport: Some(DifferentialViewport { width: 800, height: 400 }),
            time_range: Some(DifferentialTimeRange { start: b(0.0), end: b(100.0) }),
            price_range: Some(DifferentialPriceRange { min: b(10.0), max: b(90.0) }),
            points: vec![DataPoint::new(b(0.0), b(10.0)), DataPoint::new(b(100.0), b(90.0))],
            candles: vec![],
            time_axis_label_config: None,
            price_axis_label_config: None,
            tolerance: None,
            baseline_png_relpath: None,
            events: vec![
                event(&[("type", text("price_scale_mode")), ("mode", text("log"))]),
                event(&[("event", text("axis_scale_price")), ("deltaY", num(120.0)), ("anchorY", num(200.0))]),
                event(&[("kind", text("crosshair_move")), ("x", num(330.0)), ("y", num(120.0))]),
            ],
        }],
    };

    let corpus = import_lightweight_visual_capture(capture).expect("import visual capture");
    assert_eq!(corpus.schema_version, 1);
    assert_eq!(corpus.trace_name.as_deref(), Some("visual-raw"));
    assert!(corpus.source_notes.as_deref().expect("source notes present").contains("without manual normalization"));
    assert_eq!(corpus.fixtures.len(), 1);

    let fixture = &corpus.fixtures[0];
    assert_eq!(fixture.id, "LWC Fixture 01");
    assert_eq!(
        fixture.baseline_png_relpath,
        "tests/fixtures/lightweight_visual_differential/reference_png/lwc-fixture-01.png"
    );
    assert_eq!(fixture.tolerance.max_channel_abs_diff, 2);
    assert_eq!(f64::from_bits(fixture.tolerance.mean_channel_abs_diff), 0.5);
    assert_eq!(fixture.input.actions.len(), 3);

    assert!(matches!(fixture.input.actions[0], VisualCorpusAction::SetPriceScaleMode { mode: TracePriceScaleMode::Log }));
    assert!(matches!(fixture.input.actions[1], VisualCorpusAction::AxisDragScalePrice { .. }));
    assert!(matches!(fixture.input.actions[2], VisualCorpusAction::PointerMove { .. }));
}
