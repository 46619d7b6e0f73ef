use vstd::prelude::*;

use crate::error::{invalid_data, is_invalid_data, ChartResult};
use crate::float_bits::{bits_gt_zero, bits_is_finite, bits_lt, bits_lt_zero, gt_zero, is_finite, lt, lt_zero, F64Bits};

verus! {

/// Whether the visible time range is clamped to the data at either edge.
#[derive(Debug, Clone, Copy, PartialEq, Eq, Structural)]
pub struct TimeScaleEdgeBehavior {
    pub fix_left_edge: bool,
    pub fix_right_edge: bool,
}

/// Right offset (in bars) and optional fixed bar spacing (in pixels), both encoded `f64`.
#[derive(Debug, Clone, Copy, PartialEq, Eq, Structural)]
pub struct TimeScaleNavigationBehavior {
    pub right_offset_bars: F64Bits,
    pub bar_spacing_px: Option<F64Bits>,
}

/// Bounds on the bar spacing in pixels, encoded `f64`.
#[derive(Debug, Clone, Copy, PartialEq, Eq, Structural)]
pub struct TimeScaleZoomLimitBehavior {
    pub min_bar_spacing_px: F64Bits,
    pub max_bar_spacing_px: Option<F64Bits>,
}

/// Whether zooming by scroll keeps the right-most bar in place.
#[derive(Debug, Clone, Copy, PartialEq, Eq, Structural)]
pub struct TimeScaleScrollZoomBehavior {
    pub right_bar_stays_on_scroll: bool,
}

/// The edge of the visible range kept in place when the viewport is resized.
#[derive(Debug, Clone, Copy, PartialEq, Eq, Structural)]
pub enum TimeScaleResizeAnchor {
    Left,
    Center,
    Right,
}

/// Whether the visible range is kept on resize, and around which anchor.
#[derive(Debug, Clone, Copy, PartialEq, Eq, Structural)]
pub struct TimeScaleResizeBehavior {
    pub lock_visible_range_on_resize: bool,
    pub anchor: TimeScaleResizeAnchor,
}

/// How appended realtime data moves the visible range; the tolerance is an encoded `f64`.
#[derive(Debug, Clone, Copy, PartialEq, Eq, Structural)]
pub struct TimeScaleRealtimeAppendBehavior {
    pub preserve_right_edge_on_append: bool,
    pub right_edge_tolerance_bars: F64Bits,
}

/// A navigation behavior is valid when the right offset is finite and a fixed bar
/// spacing, if any, is finite and positive.
pub open spec fn navigation_behavior_valid(behavior: TimeScaleNavigationBehavior) -> bool {
    &&& is_finite(behavior.right_offset_bars)
    &&& behavior.bar_spacing_px matches Some(x) ==> is_finite(x) && gt_zero(x)
}

/// A realtime-append behavior is valid when the tolerance is finite and not negative.
pub open spec fn realtime_append_behavior_valid(behavior: TimeScaleRealtimeAppendBehavior) -> bool {
    is_finite(behavior.right_edge_tolerance_bars) && !lt_zero(behavior.right_edge_tolerance_bars)
}

/// A zoom-limit behavior is valid when the minimum spacing is finite and positive and a
/// maximum, if any, is finite, positive and not below the minimum.
pub open spec fn zoom_limit_behavior_valid(behavior: TimeScaleZoomLimitBehavior) -> bool {
    &&& is_finite(behavior.min_bar_spacing_px) && gt_zero(behavior.min_bar_spacing_px)
    &&& behavior.max_bar_spacing_px matches Some(x) ==> is_finite(x) && gt_zero(x) && !lt(
        x,
        behavior.min_bar_spacing_px,
    )
}

/// The error text for an invalid navigation behavior.
pub open spec fn navigation_behavior_error(behavior: TimeScaleNavigationBehavior) -> Seq<char> {
    if !is_finite(behavior.right_offset_bars) {
        "time scale right offset must be finite"@
    } else {
        "time scale bar spacing must be finite and > 0"@
    }
}

/// The error text for an invalid realtime-append behavior.
pub open spec fn realtime_append_behavior_error() -> Seq<char> {
    "time scale realtime right-edge tolerance must be finite and >= 0"@
}

/// The error text for an invalid zoom-limit behavior.
pub open spec fn zoom_limit_behavior_error(behavior: TimeScaleZoomLimitBehavior) -> Seq<char> {
    if !(is_finite(behavior.min_bar_spacing_px) && gt_zero(behavior.min_bar_spacing_px)) {
        "time scale minimum bar spacing must be finite and > 0"@
    } else if behavior.max_bar_spacing_px matches Some(x) && !(is_finite(x) && gt_zero(x)) {
        "time scale maximum bar spacing must be finite and > 0"@
    } else {
        "time scale maximum bar spacing must be >= minimum bar spacing"@
    }
}

/// Checks a navigation behavior.
pub fn validate_time_scale_navigation_behavior(behavior: TimeScaleNavigationBehavior) -> (r:
    ChartResult<()>)
    ensures
        r is Ok <==> navigation_behavior_valid(behavior),
        !navigation_behavior_valid(behavior) ==> is_invalid_data(
            r,
            navigation_behavior_error(behavior),
        ),
{
    if !bits_is_finite(behavior.right_offset_bars) {
        return Err(invalid_data("time scale right offset must be finite"));
    }
    if let Some(bar_spacing_px) = behavior.bar_spacing_px {
        if !bits_is_finite(bar_spacing_px) || !bits_gt_zero(bar_spacing_px) {
            return Err(invalid_data("time scale bar spacing must be finite and > 0"));
        }
    }
    Ok(())
}

/// Checks a realtime-append behavior.
pub fn validate_time_scale_realtime_append_behavior(behavior: TimeScaleRealtimeAppendBehavior) -> (r:
    ChartResult<()>)
    ensures
        r is Ok <==> realtime_append_behavior_valid(behavior),
        !realtime_append_behavior_valid(behavior) ==> is_invalid_data(
            r,
            realtime_append_behavior_error(),
        ),
{
    if !bits_is_finite(behavior.right_edge_tolerance_bars) || bits_lt_zero(
        behavior.right_edge_tolerance_bars,
    ) {
        return Err(invalid_data("time scale realtime right-edge tolerance must be finite and >= 0"));
    }
    Ok(())
}

/// Checks a zoom-limit behavior.
pub fn validate_time_scale_zoom_limit_behavior(behavior: TimeScaleZoomLimitBehavior) -> (r:
    ChartResult<()>)
    ensures
        r is Ok <==> zoom_limit_behavior_valid(behavior),
        !zoom_limit_behavior_valid(behavior) ==> is_invalid_data(
            r,
            zoom_limit_behavior_error(behavior),
        ),
{
    if !bits_is_finite(behavior.min_bar_spacing_px) || !bits_gt_zero(behavior.min_bar_spacing_px) {
        return Err(invalid_data("time scale minimum bar spacing must be finite and > 0"));
    }
    if let Some(max_bar_spacing_px) = behavior.max_bar_spacing_px {
        if !bits_is_finite(max_bar_spacing_px) || !bits_gt_zero(max_bar_spacing_px) {
            return Err(invalid_data("time scale maximum bar spacing must be finite and > 0"));
        }
        if bits_lt(max_bar_spacing_px, behavior.min_bar_spacing_px) {
            return Err(invalid_data("time scale maximum bar spacing must be >= minimum bar spacing"));
        }
    }
    Ok(())
}

} // verus!
