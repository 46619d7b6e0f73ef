use vstd::prelude::*;

use crate::error::{invalid_data, is_invalid_data, ChartResult};
use crate::float_bits::{bits_is_finite, bits_lt_zero, is_finite, lt_zero, F64Bits};
use crate::time_scale_behavior::{
    navigation_behavior_error, navigation_behavior_valid,
    realtime_append_behavior_error, zoom_limit_behavior_error, realtime_append_behavior_valid,
    validate_time_scale_navigation_behavior, validate_time_scale_realtime_append_behavior,
    validate_time_scale_zoom_limit_behavior, zoom_limit_behavior_valid, TimeScaleEdgeBehavior,
    TimeScaleNavigationBehavior, TimeScaleRealtimeAppendBehavior, TimeScaleResizeBehavior,
    TimeScaleScrollZoomBehavior, TimeScaleZoomLimitBehavior,
};

verus! {

/// The time-scale behavior settings of a chart.
#[derive(Debug, Clone, Copy, PartialEq, Eq, Structural)]
pub struct ChartBehavior {
    pub time_scale_edge_behavior: TimeScaleEdgeBehavior,
    pub time_scale_navigation_behavior: TimeScaleNavigationBehavior,
    pub time_scale_zoom_limit_behavior: TimeScaleZoomLimitBehavior,
    pub time_scale_scroll_zoom_behavior: TimeScaleScrollZoomBehavior,
    pub time_scale_resize_behavior: TimeScaleResizeBehavior,
    pub time_scale_realtime_append_behavior: TimeScaleRealtimeAppendBehavior,
    /// Optional right offset in pixels, an encoded `f64`.
    pub time_scale_right_offset_px: Option<F64Bits>,
}

/// An optional right offset in pixels is valid when absent, or finite and not negative.
pub open spec fn right_offset_px_valid(px: Option<F64Bits>) -> bool {
    px matches Some(x) ==> is_finite(x) && !lt_zero(x)
}

/// Every setting of the behavior passes its validation.
pub open spec fn behavior_valid(b: ChartBehavior) -> bool {
    &&& navigation_behavior_valid(b.time_scale_navigation_behavior)
    &&& zoom_limit_behavior_valid(b.time_scale_zoom_limit_behavior)
    &&& realtime_append_behavior_valid(b.time_scale_realtime_append_behavior)
    &&& right_offset_px_valid(b.time_scale_right_offset_px)
}

/// Navigation is active when the right offset is not zero, or a bar spacing or pixel right
/// offset is set.
pub open spec fn spec_navigation_active(b: ChartBehavior) -> bool {
    !crate::float_bits::is_zero(b.time_scale_navigation_behavior.right_offset_bars)
        || b.time_scale_navigation_behavior.bar_spacing_px is Some
        || b.time_scale_right_offset_px is Some
}

/// The behavior state of a chart engine.
///
/// Settings that change how the visible time range must be constrained raise a request;
/// the host that owns the time-scale geometry applies the constraints and takes the request.
#[derive(Debug, Clone, Copy)]
pub struct ChartEngine {
    behavior: ChartBehavior,
    time_scale_constraints_requested: bool,
}

/// Checks an optional right offset in pixels.
pub fn validate_time_scale_right_offset_px(right_offset_px: Option<F64Bits>) -> (r: ChartResult<()>)
    ensures
        r is Ok <==> right_offset_px_valid(right_offset_px),
        !right_offset_px_valid(right_offset_px) ==> is_invalid_data(
            r,
            "time scale right offset px must be finite and >= 0"@,
        ),
{
    if let Some(px) = right_offset_px {
        if !bits_is_finite(px) || bits_lt_zero(px) {
            return Err(invalid_data("time scale right offset px must be finite and >= 0"));
        }
    }
    Ok(())
}

impl ChartEngine {
    /// The current behavior settings.
    pub closed spec fn spec_behavior(&self) -> ChartBehavior {
        self.behavior
    }

    /// The time-scale constraints must be applied again.
    pub closed spec fn constraints_requested(&self) -> bool {
        self.time_scale_constraints_requested
    }

    /// An engine with the given settings, once they are all valid; the constraints of the
    /// initial settings are requested.
    pub fn new(behavior: ChartBehavior) -> (r: ChartResult<ChartEngine>)
        ensures
            r is Ok <==> behavior_valid(behavior),
            r matches Ok(e) ==> e.spec_behavior() == behavior && e.constraints_requested(),
    {
        validate_time_scale_navigation_behavior(behavior.time_scale_navigation_behavior)?;
        validate_time_scale_zoom_limit_behavior(behavior.time_scale_zoom_limit_behavior)?;
        validate_time_scale_realtime_append_behavior(behavior.time_scale_realtime_append_behavior)?;
        validate_time_scale_right_offset_px(behavior.time_scale_right_offset_px)?;
        Ok(ChartEngine { behavior, time_scale_constraints_requested: true })
    }

    /// The whole behavior settings.
    pub fn behavior(&self) -> (r: ChartBehavior)
        ensures
            r == self.spec_behavior(),
    {
        self.behavior
    }

    /// Takes the pending request to apply the time-scale constraints.
    pub fn take_time_scale_constraints_request(&mut self) -> (r: bool)
        ensures
            r == old(self).constraints_requested(),
            !final(self).constraints_requested(),
            final(self).spec_behavior() == old(self).spec_behavior(),
    {
        let r = self.time_scale_constraints_requested;
        self.time_scale_constraints_requested = false;
        r
    }

    pub fn time_scale_edge_behavior(&self) -> (r: TimeScaleEdgeBehavior)
        ensures
            r == self.spec_behavior().time_scale_edge_behavior,
    {
        self.behavior.time_scale_edge_behavior
    }

    /// Sets the edge behavior; the constraints are requested.
    pub fn set_time_scale_edge_behavior(&mut self, behavior: TimeScaleEdgeBehavior) -> (r:
        ChartResult<()>)
        ensures
            behavior_valid(old(self).spec_behavior()) ==> behavior_valid(final(self).spec_behavior()),
            r is Ok,
            final(self).spec_behavior() == (ChartBehavior {
                time_scale_edge_behavior: behavior,
                ..old(self).spec_behavior()
            }),
            final(self).constraints_requested(),
    {
        self.behavior.time_scale_edge_behavior = behavior;
        self.time_scale_constraints_requested = true;
        Ok(())
    }

    pub fn time_scale_navigation_behavior(&self) -> (r: TimeScaleNavigationBehavior)
        ensures
            r == self.spec_behavior().time_scale_navigation_behavior,
    {
        self.behavior.time_scale_navigation_behavior
    }

    /// Sets the navigation behavior when it is valid, and requests the constraints; an
    /// invalid behavior is refused and nothing changes.
    pub fn set_time_scale_navigation_behavior(&mut self, behavior: TimeScaleNavigationBehavior) -> (r:
        ChartResult<()>)
        ensures
            behavior_valid(old(self).spec_behavior()) ==> behavior_valid(final(self).spec_behavior()),
            r is Ok <==> navigation_behavior_valid(behavior),
            !navigation_behavior_valid(behavior) ==> is_invalid_data(
                r,
                navigation_behavior_error(behavior),
            ),
            r is Ok ==> final(self).spec_behavior() == (ChartBehavior {
                time_scale_navigation_behavior: behavior,
                ..old(self).spec_behavior()
            }) && final(self).constraints_requested(),
            r is Err ==> *final(self) == *old(self),
    {
        validate_time_scale_navigation_behavior(behavior)?;
        self.behavior.time_scale_navigation_behavior = behavior;
        self.time_scale_constraints_requested = true;
        Ok(())
    }

    pub fn time_scale_zoom_limit_behavior(&self) -> (r: TimeScaleZoomLimitBehavior)
        ensures
            r == self.spec_behavior().time_scale_zoom_limit_behavior,
    {
        self.behavior.time_scale_zoom_limit_behavior
    }

    /// Sets the zoom-limit behavior when it is valid, and requests the constraints; an
    /// invalid behavior is refused and nothing changes.
    pub fn set_time_scale_zoom_limit_behavior(&mut self, behavior: TimeScaleZoomLimitBehavior) -> (r:
        ChartResult<()>)
        ensures
            behavior_valid(old(self).spec_behavior()) ==> behavior_valid(final(self).spec_behavior()),
            r is Ok <==> zoom_limit_behavior_valid(behavior),
            !zoom_limit_behavior_valid(behavior) ==> is_invalid_data(
                r,
                zoom_limit_behavior_error(behavior),
            ),
            r is Ok ==> final(self).spec_behavior() == (ChartBehavior {
                time_scale_zoom_limit_behavior: behavior,
                ..old(self).spec_behavior()
            }) && final(self).constraints_requested(),
            r is Err ==> *final(self) == *old(self),
    {
        validate_time_scale_zoom_limit_behavior(behavior)?;
        self.behavior.time_scale_zoom_limit_behavior = behavior;
        self.time_scale_constraints_requested = true;
        Ok(())
    }

    pub fn time_scale_right_offset_px(&self) -> (r: Option<F64Bits>)
        ensures
            r == self.spec_behavior().time_scale_right_offset_px,
    {
        self.behavior.time_scale_right_offset_px
    }

    /// Sets the right offset in pixels when it is valid, and requests the constraints; an
    /// invalid offset is refused and nothing changes.
    pub fn set_time_scale_right_offset_px(&mut self, right_offset_px: Option<F64Bits>) -> (r:
        ChartResult<()>)
        ensures
            behavior_valid(old(self).spec_behavior()) ==> behavior_valid(final(self).spec_behavior()),
            r is Ok <==> right_offset_px_valid(right_offset_px),
            !right_offset_px_valid(right_offset_px) ==> is_invalid_data(
                r,
                "time scale right offset px must be finite and >= 0"@,
            ),
            r is Ok ==> final(self).spec_behavior() == (ChartBehavior {
                time_scale_right_offset_px: right_offset_px,
                ..old(self).spec_behavior()
            }) && final(self).constraints_requested(),
            r is Err ==> *final(self) == *old(self),
    {
        validate_time_scale_right_offset_px(right_offset_px)?;
        self.behavior.time_scale_right_offset_px = right_offset_px;
        self.time_scale_constraints_requested = true;
        Ok(())
    }

    pub fn time_scale_scroll_zoom_behavior(&self) -> (r: TimeScaleScrollZoomBehavior)
        ensures
            r == self.spec_behavior().time_scale_scroll_zoom_behavior,
    {
        self.behavior.time_scale_scroll_zoom_behavior
    }

    /// Sets the scroll-zoom behavior; it does not affect the constraints.
    pub fn set_time_scale_scroll_zoom_behavior(&mut self, behavior: TimeScaleScrollZoomBehavior) -> (r:
        ChartResult<()>)
        ensures
            behavior_valid(old(self).spec_behavior()) ==> behavior_valid(final(self).spec_behavior()),
            r is Ok,
            final(self).spec_behavior() == (ChartBehavior {
                time_scale_scroll_zoom_behavior: behavior,
                ..old(self).spec_behavior()
            }),
            final(self).constraints_requested() == old(self).constraints_requested(),
    {
        self.behavior.time_scale_scroll_zoom_behavior = behavior;
        Ok(())
    }

    pub fn time_scale_resize_behavior(&self) -> (r: TimeScaleResizeBehavior)
        ensures
            r == self.spec_behavior().time_scale_resize_behavior,
    {
        self.behavior.time_scale_resize_behavior
    }

    /// Sets the resize behavior; it does not affect the constraints.
    pub fn set_time_scale_resize_behavior(&mut self, behavior: TimeScaleResizeBehavior) -> (r:
        ChartResult<()>)
        ensures
            behavior_valid(old(self).spec_behavior()) ==> behavior_valid(final(self).spec_behavior()),
            r is Ok,
            final(self).spec_behavior() == (ChartBehavior {
                time_scale_resize_behavior: behavior,
                ..old(self).spec_behavior()
            }),
            final(self).constraints_requested() == old(self).constraints_requested(),
    {
        self.behavior.time_scale_resize_behavior = behavior;
        Ok(())
    }

    pub fn time_scale_realtime_append_behavior(&self) -> (r: TimeScaleRealtimeAppendBehavior)
        ensures
            r == self.spec_behavior().time_scale_realtime_append_behavior,
    {
        self.behavior.time_scale_realtime_append_behavior
    }

    /// Sets the realtime-append behavior when it is valid; it does not affect the
    /// constraints. An invalid behavior is refused and nothing changes.
    pub fn set_time_scale_realtime_append_behavior(
        &mut self,
        behavior: TimeScaleRealtimeAppendBehavior,
    ) -> (r: ChartResult<()>)
        ensures
            behavior_valid(old(self).spec_behavior()) ==> behavior_valid(final(self).spec_behavior()),
            r is Ok <==> realtime_append_behavior_valid(behavior),
            !realtime_append_behavior_valid(behavior) ==> is_invalid_data(
                r,
                realtime_append_behavior_error(),
            ),
            r is Ok ==> final(self).spec_behavior() == (ChartBehavior {
                time_scale_realtime_append_behavior: behavior,
                ..old(self).spec_behavior()
            }),
            final(self).constraints_requested() == old(self).constraints_requested(),
            r is Err ==> *final(self) == *old(self),
    {
        validate_time_scale_realtime_append_behavior(behavior)?;
        self.behavior.time_scale_realtime_append_behavior = behavior;
        Ok(())
    }

    /// Whether the right edge of the visible range follows the data: a navigation offset,
    /// a fixed bar spacing or a pixel right offset is set.
    pub fn navigation_active(&self) -> (r: bool)
        ensures
            r == spec_navigation_active(self.spec_behavior()),
    {
        let nav = self.behavior.time_scale_navigation_behavior;
        !crate::float_bits::bits_is_zero(nav.right_offset_bars) || nav.bar_spacing_px.is_some()
            || self.behavior.time_scale_right_offset_px.is_some()
    }
}

} // verus!
