use chart_rs::lightweight_events::{EventValue, LightweightEvent, TracePriceScaleMode, VisualCorpusAction};
use chart_rs::series::DataPoint;
use chart_rs::types::Viewport;
use chart_rs::visual_import::{
    import_lightweight_visual_capture, import_lightweight_visual_fixture, DifferentialPriceRange,
    DifferentialTimeRange, DifferentialViewport, LightweightVisualCaptureFile,
    LightweightVisualCaptureFixture, VisualCorpusTolerance,
};

fn b(v: f64) -> u64 {
    v.to_bits()
}

fn event(fields: &[(&str, EventValue)]) -> LightweightEvent {
    LightweightEvent { fields: fields.iter().map(|(k, v)| (k.to_string(), v.clone())).collect() }
}

fn empty_fixture() -> LightweightVisualCaptureFixture {
    LightweightVisualCaptureFixture {
        id: None,
        description: None,
        viewport: None,
        time_range: None,
        price_range: None,
        points: Vec::new(),
        candles: Vec::new(),
        time_axis_label_config: None,
        price_axis_label_config: None,
        tolerance: None,
        baseline_png_relpath: None,
        events: Vec::new(),
    }
}

fn capture(fixtures: Vec<LightweightVisualCaptureFixture>) -> LightweightVisualCaptureFile {
    LightweightVisualCaptureFile {
        trace_name: Some("visual-raw".to_string()),
        source_notes: None,
        viewport: Some(DifferentialViewport { width: 800, height: 400 }),
        time_range: Some(DifferentialTimeRange { start: b(0.0), end: b(100.0) }),
        price_range: Some(DifferentialPriceRange { min: b(10.0), max: b(90.0) }),
        tolerance: None,
        points: vec![DataPoint::new(b(1.0), b(20.0))],
        candles: Vec::new(),
        time_axis_label_config: None,
        price_axis_label_config: None,
        events: vec![event(&[("type", EventValue::Text("price_scale_mode".to_string())), ("mode", EventValue::Text("log".to_string()))])],
        fixtures,
    }
}

#[test]
fn fixture_import_fills_in_defaults() {
    let fixture = LightweightVisualCaptureFixture { id: Some("LWC Fixture 01".to_string()), ..empty_fixture() };
    let imported = import_lightweight_visual_fixture(
        fixture,
        0,
        Some(DifferentialViewport { width: 800, height: 400 }),
        Some(DifferentialTimeRange { start: b(100.0), end: b(200.0) }),
        Some(DifferentialPriceRange { min: b(10.0), max: b(90.0) }),
        None,
    )
    .expect("visual fixture");
    assert_eq!(imported.id, "LWC Fixture 01");
    assert_eq!(imported.description, "Imported directly from Lightweight visual capture");
    assert_eq!(imported.input.viewport, Viewport::new(800, 400));
    assert_eq!(imported.input.time_range, [b(100.0), b(200.0)]);
    assert_eq!(imported.input.price_range, [b(10.0), b(90.0)]);
    assert_eq!(imported.tolerance, VisualCorpusTolerance { max_channel_abs_diff: 0, mean_channel_abs_diff: b(0.0) });
    assert_eq!(
        imported.baseline_png_relpath,
        "tests/fixtures/lightweight_visual_differential/reference_png/lwc-fixture-01.png"
    );
}

#[test]
fn fixture_import_numbers_unnamed_fixtures_and_reports_missing_ranges() {
    let err = import_lightweight_visual_fixture(empty_fixture(), 11, None, None, None, None).unwrap_err();
    assert_eq!(err, "visual fixture `lwc-visual-fixture-12` missing viewport");
    let err = import_lightweight_visual_fixture(
        empty_fixture(),
        0,
        Some(DifferentialViewport { width: 1, height: 1 }),
        None,
        None,
        None,
    )
    .unwrap_err();
    assert_eq!(err, "visual fixture `lwc-visual-fixture-1` missing time_range");
}

#[test]
fn capture_without_fixture_list_becomes_one_fixture() {
    let corpus = import_lightweight_visual_capture(capture(Vec::new())).expect("corpus");
    assert_eq!(corpus.schema_version, 1);
    assert_eq!(corpus.trace_name.as_deref(), Some("visual-raw"));
    assert_eq!(corpus.source.as_deref(), Some("lightweight-charts-v5.1-capture"));
    assert_eq!(
        corpus.source_notes.as_deref(),
        Some("Imported directly from Lightweight real visual capture without manual normalization.")
    );
    assert_eq!(corpus.fixtures.len(), 1);
    let fixture = &corpus.fixtures[0];
    assert_eq!(fixture.id, "lwc-visual-fixture-1");
    assert_eq!(fixture.input.points.len(), 1);
    assert_eq!(fixture.input.actions, vec![VisualCorpusAction::SetPriceScaleMode { mode: TracePriceScaleMode::Log }]);
    assert_eq!(
        fixture.baseline_png_relpath,
        "tests/fixtures/lightweight_visual_differential/reference_png/lwc-visual-fixture-1.png"
    );
}

#[test]
fn capture_fixtures_use_capture_defaults_and_stop_at_first_error() {
    let second = LightweightVisualCaptureFixture {
        events: vec![event(&[("type", EventValue::Text("zoom".to_string()))])],
        ..empty_fixture()
    };
    let err = import_lightweight_visual_capture(capture(vec![empty_fixture(), second])).unwrap_err();
    assert_eq!(err, "unsupported lightweight visual event type `zoom`");
    let corpus = import_lightweight_visual_capture(capture(vec![empty_fixture(), empty_fixture()])).unwrap();
    assert_eq!(corpus.fixtures.len(), 2);
    assert_eq!(corpus.fixtures[1].id, "lwc-visual-fixture-2");
    assert_eq!(corpus.fixtures[1].input.viewport, Viewport::new(800, 400));
}
