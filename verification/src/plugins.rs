use vstd::prelude::*;

use crate::float_bits::F64Bits;
use crate::interaction::{CrosshairState, InteractionMode};
use crate::types::Viewport;

verus! {

/// Read-only state snapshot passed to plugin hooks; ranges are encoded `f64` pairs.
#[derive(Debug, Clone, Copy, PartialEq, Eq)]
pub struct PluginContext {
    pub viewport: Viewport,
    pub time_visible_range: (F64Bits, F64Bits),
    pub price_domain: (F64Bits, F64Bits),
    pub points_len: usize,
    pub candles_len: usize,
    pub interaction_mode: InteractionMode,
    pub crosshair: CrosshairState,
}

/// Event stream exposed to plugins; coordinates and times are encoded `f64`.
#[derive(Debug, Clone, Copy, PartialEq, Eq, Structural)]
pub enum PluginEvent {
    DataUpdated { points_len: usize },
    CandlesUpdated { candles_len: usize },
    PointerMoved { x: F64Bits, y: F64Bits },
    PointerLeft,
    VisibleRangeChanged { start: F64Bits, end: F64Bits },
    PanStarted,
    PanEnded,
    Rendered,
}

/// Extension hook interface for bounded custom logic.
///
/// Plugins can observe events and read engine context without mutating core
/// internals directly.
pub trait ChartPlugin {
    fn id(&self) -> &str;

    fn on_event(&mut self, event: PluginEvent, context: PluginContext);
}

} // verus!
