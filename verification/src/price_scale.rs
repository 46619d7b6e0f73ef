use vstd::prelude::*;

verus! {

/// Mapping mode used by the price scale.
#[derive(Debug, Clone, Copy, PartialEq, Eq, Structural)]
pub enum PriceScaleMode {
    /// Uniform spacing in raw price units.
    Linear,
    /// Uniform spacing in natural-log price units (all prices must be > 0).
    Log,
}

impl Default for PriceScaleMode {
    fn default() -> (r: PriceScaleMode)
        ensures
            r == PriceScaleMode::Linear,
    {
        PriceScaleMode::Linear
    }
}

} // verus!
