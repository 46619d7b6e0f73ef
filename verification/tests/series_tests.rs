use chart_rs::error::ChartError;
use chart_rs::extensions::{
    compare_marker_placement, compare_ordered_floats, compare_texts, side_for_position,
    MarkerPlacementConfig, MarkerPosition, MarkerSide, SeriesMarker,
};
use chart_rs::series::{
    candles_in_time_window, points_in_time_window, validate_time_index_coordinate_space, DataPoint,
    LinearScale, OhlcBar,
};
use chart_rs::primitives::{decimal_conversion_result, decimal_to_f64};
use chart_rs::types::Viewport;

fn b(v: f64) -> u64 {
    v.to_bits()
}

fn point(x: f64, y: f64) -> DataPoint {
    DataPoint::new(b(x), b(y))
}

fn bar(time: f64, open: f64, high: f64, low: f64, close: f64) -> OhlcBar {
    OhlcBar::new(b(time), b(open), b(high), b(low), b(close)).expect("valid bar")
}

fn data_text(err: ChartError) -> String {
    match err {
        ChartError::InvalidData(m) => m,
        other => panic!("unexpected error {other:?}"),
    }
}

#[test]
fn points_window_is_inclusive_and_order_free() {
    let points = vec![point(1.0, 10.0), point(2.0, 20.0), point(3.0, 30.0), point(4.0, 40.0)];
    assert_eq!(points_in_time_window(&points, b(2.0), b(3.0)), vec![point(2.0, 20.0), point(3.0, 30.0)]);
    assert_eq!(points_in_time_window(&points, b(3.0), b(2.0)), vec![point(2.0, 20.0), point(3.0, 30.0)]);
    assert_eq!(points_in_time_window(&points, b(5.0), b(9.0)), Vec::<DataPoint>::new());
    assert_eq!(points_in_time_window(&points, b(-0.0), b(f64::NAN)), Vec::<DataPoint>::new());
}

#[test]
fn candles_window_keeps_bars_inside() {
    let candles = vec![bar(1.0, 1.0, 2.0, 0.5, 1.5), bar(2.0, 1.5, 3.0, 1.0, 2.5), bar(5.0, 2.0, 2.0, 2.0, 2.0)];
    assert_eq!(candles_in_time_window(&candles, b(0.0), b(2.0)), candles[..2].to_vec());
}

#[test]
fn ohlc_bar_rejects_inconsistent_values() {
    let err = OhlcBar::new(b(f64::NAN), b(1.0), b(2.0), b(0.5), b(1.5)).unwrap_err();
    assert_eq!(data_text(err), "ohlc values must be finite");
    let err = OhlcBar::new(b(1.0), b(1.0), b(0.5), b(2.0), b(1.5)).unwrap_err();
    assert_eq!(data_text(err), "ohlc low must be <= high");
    let err = OhlcBar::new(b(1.0), b(3.0), b(2.0), b(0.5), b(1.5)).unwrap_err();
    assert_eq!(data_text(err), "ohlc open/close must be within low/high range");
    assert!(bar(1.0, 1.0, 2.0, 0.5, 1.5).is_bullish());
    assert!(!bar(1.0, 1.5, 2.0, 0.5, 1.0).is_bullish());
}

#[test]
fn linear_scale_rejects_empty_domain_and_checks_inputs() {
    let err = LinearScale::new(b(1.0), b(1.0)).unwrap_err();
    assert_eq!(data_text(err), "scale domain must be finite and non-zero");
    let scale = LinearScale::new(b(0.0), b(10.0)).expect("scale");
    assert_eq!(scale.domain(), (b(0.0), b(10.0)));
    assert!(scale.check_domain_value(b(5.0), Viewport::new(100, 50)).is_ok());
    assert!(matches!(
        scale.check_domain_value(b(5.0), Viewport::new(0, 50)),
        Err(ChartError::InvalidViewport { width: 0, height: 50 })
    ));
    let err = scale.check_pixel(b(f64::INFINITY), Viewport::new(100, 50)).unwrap_err();
    assert_eq!(data_text(err), "pixel must be finite");
}

#[test]
fn markers_map_positions_to_sides() {
    assert_eq!(side_for_position(MarkerPosition::AboveBar), MarkerSide::Above);
    assert_eq!(side_for_position(MarkerPosition::BelowBar), MarkerSide::Below);
    assert_eq!(side_for_position(MarkerPosition::InBar), MarkerSide::Center);
    assert_eq!(side_for_position(MarkerPosition::Price(b(3.0))), MarkerSide::Center);
    let marker = SeriesMarker::new("m1".to_string(), b(10.0), MarkerPosition::AboveBar)
        .with_text("buy".to_string())
        .with_priority(3);
    assert_eq!(marker.id, "m1");
    assert_eq!(marker.text.as_deref(), Some("buy"));
    assert_eq!(marker.priority, 3);
}

#[test]
fn marker_config_validation_names_first_bad_field() {
    let config = MarkerPlacementConfig::default();
    assert_eq!(config.marker_size_px, b(8.0));
    assert_eq!(config.label_height_px, b(14.0));
    assert_eq!(config.validate().unwrap(), config);
    let bad = MarkerPlacementConfig { lane_gap_px: b(0.0), vertical_offset_px: b(-1.0), ..config };
    let err = bad.validate().unwrap_err();
    assert_eq!(data_text(err), "marker config `lane_gap_px` must be finite and > 0");
}

#[test]
fn coordinate_space_checks_each_parameter_in_order() {
    assert!(validate_time_index_coordinate_space(b(10.0), b(0.0), b(6.0), b(800.0)).is_ok());
    let err = validate_time_index_coordinate_space(b(f64::NAN), b(f64::NAN), b(0.0), b(0.0)).unwrap_err();
    assert_eq!(data_text(err), "base index must be finite");
    let err = validate_time_index_coordinate_space(b(1.0), b(f64::INFINITY), b(0.0), b(0.0)).unwrap_err();
    assert_eq!(data_text(err), "right offset bars must be finite");
    let err = validate_time_index_coordinate_space(b(1.0), b(2.0), b(-6.0), b(0.0)).unwrap_err();
    assert_eq!(data_text(err), "bar spacing px must be finite and > 0");
    let err = validate_time_index_coordinate_space(b(1.0), b(2.0), b(6.0), b(0.0)).unwrap_err();
    assert_eq!(data_text(err), "width px must be finite and > 0");
}

#[test]
fn error_messages_match_their_display_text() {
    let viewport = ChartError::InvalidViewport { width: 0, height: 50 };
    assert_eq!(viewport.message(), "invalid viewport size: width=0, height=50");
    let data = ChartError::InvalidData("pixel must be finite".to_string());
    assert_eq!(data.message(), "invalid data: pixel must be finite");
}

#[test]
fn decimals_convert_through_rust_decimal() {
    assert_eq!(decimal_to_f64(3141, 3, "price"), Ok(3.141f64.to_bits()));
    assert_eq!(decimal_to_f64(-25, 1, "open"), Ok((-2.5f64).to_bits()));
    assert_eq!(decimal_to_f64(42, 0, "close"), Ok(42.0f64.to_bits()));
    let err = decimal_conversion_result(None, "high").unwrap_err();
    assert_eq!(data_text(err), "high cannot be represented as f64");
    assert_eq!(decimal_conversion_result(Some(7), "high"), Ok(7));
    assert_eq!(decimal_to_f64(0, 12, "low"), Ok(0));
    let negative = f64::from_bits(decimal_to_f64(-1, 25, "low").unwrap());
    assert!(negative < 0.0 && negative.is_finite());
    assert_eq!(decimal_to_f64(-9_000_000_000, 3, "low"), Ok((-9_000_000.0f64).to_bits()));
}

#[test]
fn ordered_floats_put_nan_last_and_equate_zeros() {
    assert_eq!(compare_ordered_floats(b(1.0), b(2.0)), -1);
    assert_eq!(compare_ordered_floats(b(2.0), b(-3.0)), 1);
    assert_eq!(compare_ordered_floats(b(-0.0), b(0.0)), 0);
    assert_eq!(compare_ordered_floats(b(f64::NAN), b(f64::INFINITY)), 1);
    assert_eq!(compare_ordered_floats(b(f64::NAN), (-f64::NAN).to_bits()), 0);
    assert_eq!(compare_texts("abc", "abd"), -1);
    assert_eq!(compare_texts("ab", "a"), 1);
    assert_eq!(compare_texts("", ""), 0);
}

#[test]
fn markers_are_placed_by_x_then_priority_then_id_then_position() {
    assert_eq!(compare_marker_placement(b(1.0), 0, "z", 5, b(2.0), 9, "a", 0), -1);
    assert_eq!(compare_marker_placement(b(1.0), 1, "z", 5, b(1.0), 9, "a", 0), 1);
    assert_eq!(compare_marker_placement(b(1.0), 9, "b", 0, b(1.0), 9, "a", 5), 1);
    assert_eq!(compare_marker_placement(b(1.0), 9, "a", 0, b(1.0), 9, "a", 5), -1);
    assert_eq!(compare_marker_placement(b(1.0), 9, "a", 3, b(1.0), 9, "a", 3), 0);
}
