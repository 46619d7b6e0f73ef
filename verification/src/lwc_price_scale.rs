use vstd::prelude::*;

verus! {

/// Price mapping mode of a model price scale.
#[derive(Debug, Clone, Copy, PartialEq, Eq, Structural)]
pub enum PriceScaleMode {
    Normal,
    Logarithmic,
    Percentage,
    IndexedTo100,
}

impl Default for PriceScaleMode {
    fn default() -> (r: PriceScaleMode)
        ensures
            r == PriceScaleMode::Normal,
    {
        PriceScaleMode::Normal
    }
}

/// The mode settings of a model price scale.
#[derive(Debug, Clone, Copy, PartialEq, Eq, Structural)]
pub struct PriceScaleState {
    pub auto_scale: bool,
    pub is_inverted: bool,
    pub mode: PriceScaleMode,
}

/// A partial update of the mode settings; `None` keeps the current value.
#[derive(Debug, Clone, Copy, PartialEq, Eq, Structural)]
pub struct PriceScaleStateChange {
    pub auto_scale: Option<bool>,
    pub is_inverted: Option<bool>,
    pub mode: Option<PriceScaleMode>,
}

impl Default for PriceScaleStateChange {
    fn default() -> (r: PriceScaleStateChange)
        ensures
            r == (PriceScaleStateChange { auto_scale: None, is_inverted: None, mode: None }),
    {
        PriceScaleStateChange { auto_scale: None, is_inverted: None, mode: None }
    }
}

/// The mode is percentage or indexed-to-100, which force auto-scale on.
pub open spec fn forces_auto_scale(mode: PriceScaleMode) -> bool {
    mode == PriceScaleMode::Percentage || mode == PriceScaleMode::IndexedTo100
}

impl PriceScaleState {
    /// The settings after `change`: each given value replaces the current one, and choosing
    /// percentage or indexed-to-100 mode turns auto-scale on.
    pub open spec fn spec_apply(self, change: PriceScaleStateChange) -> PriceScaleState {
        let auto_scale = match change.auto_scale {
            Some(a) => a,
            None => self.auto_scale,
        };
        PriceScaleState {
            auto_scale: match change.mode {
                Some(m) => if forces_auto_scale(m) {
                    true
                } else {
                    auto_scale
                },
                None => auto_scale,
            },
            is_inverted: match change.is_inverted {
                Some(i) => i,
                None => self.is_inverted,
            },
            mode: match change.mode {
                Some(m) => m,
                None => self.mode,
            },
        }
    }

    /// The settings after `change`.
    pub fn apply_change(self, change: PriceScaleStateChange) -> (r: PriceScaleState)
        ensures
            r == self.spec_apply(change),
    {
        let mut next = self;
        if let Some(auto_scale) = change.auto_scale {
            next.auto_scale = auto_scale;
        }
        if let Some(mode) = change.mode {
            next.mode = mode;
            if mode == PriceScaleMode::Percentage || mode == PriceScaleMode::IndexedTo100 {
                next.auto_scale = true;
            }
        }
        if let Some(inverted) = change.is_inverted {
            next.is_inverted = inverted;
        }
        next
    }

    /// The change leaves logarithmic mode, so the price range must be converted back from
    /// log space.
    pub fn leaves_logarithmic(self, next: PriceScaleState) -> (r: bool)
        ensures
            r == (self.mode == PriceScaleMode::Logarithmic && next.mode != self.mode),
    {
        self.mode == PriceScaleMode::Logarithmic && next.mode != self.mode
    }

    /// The change enters logarithmic mode, so the price range must be converted to log space.
    pub fn enters_logarithmic(self, next: PriceScaleState) -> (r: bool)
        ensures
            r == (next.mode == PriceScaleMode::Logarithmic && next.mode != self.mode),
    {
        next.mode == PriceScaleMode::Logarithmic && next.mode != self.mode
    }
}

/// Applying the empty change keeps the settings.
pub proof fn lemma_apply_empty_change(s: PriceScaleState)
    ensures
        s.spec_apply(PriceScaleStateChange { auto_scale: None, is_inverted: None, mode: None })
            == s,
{
}

/// Applying the same change twice is the same as applying it once.
pub proof fn lemma_apply_change_idempotent(s: PriceScaleState, c: PriceScaleStateChange)
    ensures
        s.spec_apply(c).spec_apply(c) == s.spec_apply(c),
{
}

/// After a change to percentage or indexed-to-100 mode, auto-scale is on.
pub proof fn lemma_percentage_modes_auto_scale(s: PriceScaleState, c: PriceScaleStateChange)
    requires
        c.mode matches Some(m) && forces_auto_scale(m),
    ensures
        s.spec_apply(c).auto_scale,
{
}


/// Each value a change gives replaces the current one: a given inversion and mode are taken
/// as they are, a given auto-scale is taken unless the new mode forces it on, and what the
/// change leaves out is kept.
pub proof fn lemma_change_replaces_given_values(s: PriceScaleState, c: PriceScaleStateChange)
    ensures
        c.is_inverted matches Some(i) ==> s.spec_apply(c).is_inverted == i,
        c.is_inverted is None ==> s.spec_apply(c).is_inverted == s.is_inverted,
        c.mode matches Some(m) ==> s.spec_apply(c).mode == m,
        c.mode is None ==> s.spec_apply(c).mode == s.mode,
        c.mode matches Some(m) && forces_auto_scale(m) ==> s.spec_apply(c).auto_scale,
        !(c.mode matches Some(m) && forces_auto_scale(m)) ==> s.spec_apply(c).auto_scale == match c.auto_scale {
            Some(a) => a,
            None => s.auto_scale,
        },
{
}

} // verus!
