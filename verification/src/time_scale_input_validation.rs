use vstd::prelude::*;

use crate::error::{invalid_data, ChartResult};
use crate::float_bits::{bits_finite_positive, bits_is_finite, finite_positive, is_finite, F64Bits};
use crate::validation::checked_result;

verus! {

/// Which pointer and touch gestures scroll the chart.
#[derive(Debug, Clone, Copy, PartialEq, Eq, Structural)]
pub struct InteractionInputBehavior {
    /// Scroll gestures are handled at all.
    pub handle_scroll: bool,
    /// Horizontal touch drags pan the time scale.
    pub scroll_horz_touch_drag: bool,
    /// Vertical touch drags pan the time scale.
    pub scroll_vert_touch_drag: bool,
}

/// The first failing check of zoom inputs: a finite positive factor, a finite anchor, then a
/// finite positive minimum span.
pub open spec fn zoom_inputs_error(factor: F64Bits, anchor_px: F64Bits, min_span_absolute: F64Bits) -> Option<
    Seq<char>,
> {
    if !finite_positive(factor) {
        Some("zoom factor must be finite and > 0"@)
    } else if !is_finite(anchor_px) {
        Some("zoom anchor px must be finite"@)
    } else if !finite_positive(min_span_absolute) {
        Some("zoom min span must be finite and > 0"@)
    } else {
        None
    }
}

/// The first failing check of touch-drag deltas: each delta must be finite when its axis pans.
pub open spec fn touch_drag_deltas_error(
    behavior: InteractionInputBehavior,
    delta_x_px: F64Bits,
    delta_y_px: F64Bits,
) -> Option<Seq<char>> {
    if behavior.scroll_horz_touch_drag && !is_finite(delta_x_px) {
        Some(
            "touch drag horizontal delta must be finite when horizontal touch pan is enabled"@,
        )
    } else if behavior.scroll_vert_touch_drag && !is_finite(delta_y_px) {
        Some("touch drag vertical delta must be finite when vertical touch pan is enabled"@)
    } else {
        None
    }
}

/// The first failing check of wheel-pan inputs: a finite delta, then a finite positive step.
pub open spec fn wheel_pan_inputs_error(wheel_delta_x: F64Bits, pan_step_ratio: F64Bits) -> Option<
    Seq<char>,
> {
    if !is_finite(wheel_delta_x) {
        Some("wheel pan delta must be finite"@)
    } else if !finite_positive(pan_step_ratio) {
        Some("wheel pan step ratio must be finite and > 0"@)
    } else {
        None
    }
}

/// The first failing check of wheel-zoom inputs: a finite delta, then a finite positive step.
pub open spec fn wheel_zoom_inputs_error(wheel_delta_y: F64Bits, zoom_step_ratio: F64Bits) -> Option<
    Seq<char>,
> {
    if !is_finite(wheel_delta_y) {
        Some("wheel delta must be finite"@)
    } else if !finite_positive(zoom_step_ratio) {
        Some("wheel zoom step ratio must be finite and > 0"@)
    } else {
        None
    }
}

/// Checks the inputs of a zoom around a pixel anchor.
pub fn validate_zoom_inputs(factor: F64Bits, anchor_px: F64Bits, min_span_absolute: F64Bits) -> (r:
    ChartResult<()>)
    ensures
        checked_result(r, zoom_inputs_error(factor, anchor_px, min_span_absolute), ()),
{
    if !bits_finite_positive(factor) {
        return Err(invalid_data("zoom factor must be finite and > 0"));
    }
    if !bits_is_finite(anchor_px) {
        return Err(invalid_data("zoom anchor px must be finite"));
    }
    if !bits_finite_positive(min_span_absolute) {
        return Err(invalid_data("zoom min span must be finite and > 0"));
    }
    Ok(())
}

/// Checks a pan delta in pixels.
pub fn validate_pan_pixel_delta(delta_px: F64Bits) -> (r: ChartResult<()>)
    ensures
        checked_result(
            r,
            if is_finite(delta_px) {
                None
            } else {
                Some("pan pixel delta must be finite"@)
            },
            (),
        ),
{
    if !bits_is_finite(delta_px) {
        return Err(invalid_data("pan pixel delta must be finite"));
    }
    Ok(())
}

/// Checks the deltas of a touch drag against the enabled pan axes.
pub fn validate_touch_drag_deltas(
    behavior: InteractionInputBehavior,
    delta_x_px: F64Bits,
    delta_y_px: F64Bits,
) -> (r: ChartResult<()>)
    ensures
        checked_result(r, touch_drag_deltas_error(behavior, delta_x_px, delta_y_px), ()),
{
    if behavior.scroll_horz_touch_drag && !bits_is_finite(delta_x_px) {
        return Err(
            invalid_data(
                "touch drag horizontal delta must be finite when horizontal touch pan is enabled",
            ),
        );
    }
    if behavior.scroll_vert_touch_drag && !bits_is_finite(delta_y_px) {
        return Err(
            invalid_data(
                "touch drag vertical delta must be finite when vertical touch pan is enabled",
            ),
        );
    }
    Ok(())
}

/// Checks the inputs of a wheel pan.
pub fn validate_wheel_pan_inputs(wheel_delta_x: F64Bits, pan_step_ratio: F64Bits) -> (r:
    ChartResult<()>)
    ensures
        checked_result(r, wheel_pan_inputs_error(wheel_delta_x, pan_step_ratio), ()),
{
    if !bits_is_finite(wheel_delta_x) {
        return Err(invalid_data("wheel pan delta must be finite"));
    }
    if !bits_finite_positive(pan_step_ratio) {
        return Err(invalid_data("wheel pan step ratio must be finite and > 0"));
    }
    Ok(())
}

/// Checks the inputs of a wheel zoom.
pub fn validate_wheel_zoom_inputs(wheel_delta_y: F64Bits, zoom_step_ratio: F64Bits) -> (r:
    ChartResult<()>)
    ensures
        checked_result(r, wheel_zoom_inputs_error(wheel_delta_y, zoom_step_ratio), ()),
{
    if !bits_is_finite(wheel_delta_y) {
        return Err(invalid_data("wheel delta must be finite"));
    }
    if !bits_finite_positive(zoom_step_ratio) {
        return Err(invalid_data("wheel zoom step ratio must be finite and > 0"));
    }
    Ok(())
}

} // verus!
