use vstd::prelude::*;
use std::collections::BTreeMap;
use vstd::std_specs::iter::IteratorSpec;

use crate::float_bits::F64Bits;
use crate::lwc_time_scale::LogicalRange;

verus! {

broadcast use vstd::std_specs::btree::group_btree_axioms;

/// Strength of a pending model redraw, ordered `Nothing < Cursor < Light < Full`.
#[derive(Debug, Clone, Copy, PartialEq, Eq, Structural)]
pub enum InvalidationLevel {
    Nothing,
    Cursor,
    Light,
    Full,
}

impl InvalidationLevel {
    /// Position of the level in the order.
    pub open spec fn rank(self) -> int {
        match self {
            InvalidationLevel::Nothing => 0,
            InvalidationLevel::Cursor => 1,
            InvalidationLevel::Light => 2,
            InvalidationLevel::Full => 3,
        }
    }

    /// The stronger of two levels.
    pub open spec fn spec_max(self, other: InvalidationLevel) -> InvalidationLevel {
        if self.rank() >= other.rank() {
            self
        } else {
            other
        }
    }

    /// The stronger of two levels.
    pub fn max(self, other: InvalidationLevel) -> (r: InvalidationLevel)
        ensures
            r == self.spec_max(other),
    {
        if self.rank_exec() >= other.rank_exec() {
            self
        } else {
            other
        }
    }

    /// Position of the level in the order.
    pub fn rank_exec(self) -> (r: u8)
        ensures
            r == self.rank(),
    {
        match self {
            InvalidationLevel::Nothing => 0,
            InvalidationLevel::Cursor => 1,
            InvalidationLevel::Light => 2,
            InvalidationLevel::Full => 3,
        }
    }
}

/// The default level is `Nothing`.
impl Default for InvalidationLevel {
    fn default() -> (r: InvalidationLevel)
        ensures
            r == InvalidationLevel::Nothing,
    {
        InvalidationLevel::Nothing
    }
}


/// The kind of a pending time-scale change.
#[derive(Debug, Clone, Copy, PartialEq, Eq, Structural)]
pub enum TimeScaleInvalidationType {
    FitContent,
    ApplyRange,
    ApplyBarSpacing,
    ApplyRightOffset,
    Reset,
    Animation,
    StopAnimation,
}

/// A time-scale animation; all fields are encoded `f64` values.
#[derive(Debug, Clone, Copy, PartialEq, Eq, Structural)]
pub struct TimeScaleAnimation {
    pub from: F64Bits,
    pub to: F64Bits,
    pub start_time: F64Bits,
    pub duration: F64Bits,
}

/// A pending time-scale change; the payloads are encoded `f64` values.
#[derive(Debug, Clone, Copy, PartialEq, Eq, Structural)]
pub enum TimeScaleInvalidation {
    FitContent,
    ApplyRange(LogicalRange),
    ApplyBarSpacing(F64Bits),
    ApplyRightOffset(F64Bits),
    Reset,
    Animation(TimeScaleAnimation),
    StopAnimation,
}

impl TimeScaleInvalidation {
    /// The kind of the change.
    pub open spec fn spec_kind(self) -> TimeScaleInvalidationType {
        match self {
            TimeScaleInvalidation::FitContent => TimeScaleInvalidationType::FitContent,
            TimeScaleInvalidation::ApplyRange(_) => TimeScaleInvalidationType::ApplyRange,
            TimeScaleInvalidation::ApplyBarSpacing(_) => TimeScaleInvalidationType::ApplyBarSpacing,
            TimeScaleInvalidation::ApplyRightOffset(_) => TimeScaleInvalidationType::ApplyRightOffset,
            TimeScaleInvalidation::Reset => TimeScaleInvalidationType::Reset,
            TimeScaleInvalidation::Animation(_) => TimeScaleInvalidationType::Animation,
            TimeScaleInvalidation::StopAnimation => TimeScaleInvalidationType::StopAnimation,
        }
    }

    /// The kind of the change.
    pub fn kind(self) -> (r: TimeScaleInvalidationType)
        ensures
            r == self.spec_kind(),
    {
        match self {
            TimeScaleInvalidation::FitContent => TimeScaleInvalidationType::FitContent,
            TimeScaleInvalidation::ApplyRange(_) => TimeScaleInvalidationType::ApplyRange,
            TimeScaleInvalidation::ApplyBarSpacing(_) => TimeScaleInvalidationType::ApplyBarSpacing,
            TimeScaleInvalidation::ApplyRightOffset(_) => TimeScaleInvalidationType::ApplyRightOffset,
            TimeScaleInvalidation::Reset => TimeScaleInvalidationType::Reset,
            TimeScaleInvalidation::Animation(_) => TimeScaleInvalidationType::Animation,
            TimeScaleInvalidation::StopAnimation => TimeScaleInvalidationType::StopAnimation,
        }
    }
}

/// `p` is the position of the first animation in `s`.
pub open spec fn is_first_animation(s: Seq<TimeScaleInvalidation>, p: int) -> bool {
    &&& 0 <= p < s.len()
    &&& s[p] is Animation
    &&& forall|j: int| 0 <= j < p ==> !(#[trigger] s[j] is Animation)
}

/// `s` without its first animation, or `s` itself when it holds none.
pub open spec fn without_first_animation(s: Seq<TimeScaleInvalidation>) -> Seq<
    TimeScaleInvalidation,
> {
    if exists|p: int| is_first_animation(s, p) {
        s.remove(choose|p: int| is_first_animation(s, p))
    } else {
        s
    }
}

/// Stopping the animation: the first animation is dropped and a stop is queued.
pub open spec fn with_stopped_animation(s: Seq<TimeScaleInvalidation>) -> Seq<
    TimeScaleInvalidation,
> {
    without_first_animation(s).push(TimeScaleInvalidation::StopAnimation)
}

/// The pending time-scale changes after merging in one more change.
pub open spec fn apply_time_scale_invalidation(
    s: Seq<TimeScaleInvalidation>,
    inv: TimeScaleInvalidation,
) -> Seq<TimeScaleInvalidation> {
    match inv {
        TimeScaleInvalidation::FitContent => seq![TimeScaleInvalidation::FitContent],
        TimeScaleInvalidation::ApplyRange(range) => seq![TimeScaleInvalidation::ApplyRange(range)],
        TimeScaleInvalidation::ApplyBarSpacing(x) => with_stopped_animation(s).push(
            TimeScaleInvalidation::ApplyBarSpacing(x),
        ),
        TimeScaleInvalidation::ApplyRightOffset(x) => with_stopped_animation(s).push(
            TimeScaleInvalidation::ApplyRightOffset(x),
        ),
        TimeScaleInvalidation::Reset => seq![TimeScaleInvalidation::Reset],
        TimeScaleInvalidation::Animation(a) => without_first_animation(s).push(
            TimeScaleInvalidation::Animation(a),
        ),
        TimeScaleInvalidation::StopAnimation => without_first_animation(s),
    }
}

/// The pending time-scale changes after merging in each of `others`, in order.
pub open spec fn apply_time_scale_invalidations(
    s: Seq<TimeScaleInvalidation>,
    others: Seq<TimeScaleInvalidation>,
) -> Seq<TimeScaleInvalidation>
    decreases others.len(),
{
    if others.len() == 0 {
        s
    } else {
        apply_time_scale_invalidation(
            apply_time_scale_invalidations(s, others.drop_last()),
            others.last(),
        )
    }
}

/// The number of animations in `s`.
pub open spec fn animation_count(s: Seq<TimeScaleInvalidation>) -> nat
    decreases s.len(),
{
    if s.len() == 0 {
        0
    } else {
        animation_count(s.drop_last()) + if s.last() is Animation {
            1nat
        } else {
            0nat
        }
    }
}

proof fn lemma_count_push(s: Seq<TimeScaleInvalidation>, x: TimeScaleInvalidation)
    ensures
        animation_count(s.push(x)) == animation_count(s) + if x is Animation {
            1nat
        } else {
            0nat
        },
{
    assert(s.push(x).drop_last() =~= s);
}

proof fn lemma_count_remove(s: Seq<TimeScaleInvalidation>, p: int)
    requires
        0 <= p < s.len(),
        s[p] is Animation,
    ensures
        animation_count(s.remove(p)) + 1 == animation_count(s),
    decreases s.len(),
{
    if p == s.len() - 1 {
        assert(s.remove(p) =~= s.drop_last());
    } else {
        lemma_count_remove(s.drop_last(), p);
        assert(s.remove(p) =~= s.drop_last().remove(p).push(s.last()));
        lemma_count_push(s.drop_last().remove(p), s.last());
    }
}

proof fn lemma_count_zero(s: Seq<TimeScaleInvalidation>)
    requires
        forall|j: int| 0 <= j < s.len() ==> !(#[trigger] s[j] is Animation),
    ensures
        animation_count(s) == 0,
    decreases s.len(),
{
    if s.len() > 0 {
        assert forall|j: int| 0 <= j < s.drop_last().len() implies !(
        #[trigger] s.drop_last()[j] is Animation) by {
            assert(s.drop_last()[j] == s[j]);
        }
        lemma_count_zero(s.drop_last());
    }
}

proof fn lemma_first_animation_exists(s: Seq<TimeScaleInvalidation>, q: int)
    requires
        0 <= q < s.len(),
        s[q] is Animation,
    ensures
        exists|p: int| is_first_animation(s, p),
    decreases q,
{
    if exists|j: int| 0 <= j < q && #[trigger] s[j] is Animation {
        let j = choose|j: int| 0 <= j < q && #[trigger] s[j] is Animation;
        lemma_first_animation_exists(s, j);
    } else {
        assert(is_first_animation(s, q));
    }
}

/// Dropping the first animation removes exactly one animation, or none when there is none.
proof fn lemma_count_without_first(s: Seq<TimeScaleInvalidation>)
    ensures
        animation_count(without_first_animation(s)) + (if exists|p: int|
            is_first_animation(s, p) {
            1nat
        } else {
            0nat
        }) == animation_count(s),
        !(exists|p: int| is_first_animation(s, p)) ==> animation_count(s) == 0,
{
    if exists|p: int| is_first_animation(s, p) {
        let p = choose|p: int| is_first_animation(s, p);
        lemma_count_remove(s, p);
    } else {
        assert forall|j: int| 0 <= j < s.len() implies !(#[trigger] s[j] is Animation) by {
            if s[j] is Animation {
                lemma_first_animation_exists(s, j);
            }
        }
        lemma_count_zero(s);
    }
}

/// At most one animation is ever pending: merging one change into a list that holds at most
/// one animation yields a list that holds at most one.
pub proof fn lemma_single_animation_preserved(
    s: Seq<TimeScaleInvalidation>,
    inv: TimeScaleInvalidation,
)
    requires
        animation_count(s) <= 1,
    ensures
        animation_count(apply_time_scale_invalidation(s, inv)) <= 1,
{
    lemma_count_without_first(s);
    lemma_count_push(without_first_animation(s), TimeScaleInvalidation::StopAnimation);
    lemma_count_push(with_stopped_animation(s), inv);
    lemma_count_push(without_first_animation(s), inv);
    lemma_count_push(Seq::<TimeScaleInvalidation>::empty(), inv);
    assert(seq![inv] =~= Seq::<TimeScaleInvalidation>::empty().push(inv));
    match inv {
        TimeScaleInvalidation::Animation(_) => {
        },
        _ => {},
    }
}

/// The same holds for merging in any number of changes.
pub proof fn lemma_single_animation_preserved_all(
    s: Seq<TimeScaleInvalidation>,
    others: Seq<TimeScaleInvalidation>,
)
    requires
        animation_count(s) <= 1,
    ensures
        animation_count(apply_time_scale_invalidations(s, others)) <= 1,
    decreases others.len(),
{
    if others.len() > 0 {
        lemma_single_animation_preserved_all(s, others.drop_last());
        lemma_single_animation_preserved(
            apply_time_scale_invalidations(s, others.drop_last()),
            others.last(),
        );
    }
}

/// A pending redraw request for one pane.
#[derive(Debug, Clone, Copy, PartialEq, Eq, Structural)]
pub struct PaneInvalidation {
    pub level: InvalidationLevel,
    pub auto_scale: bool,
}

impl PaneInvalidation {
    /// Combining two requests for the same pane: the stronger level, and auto-scale if
    /// either asked for it.
    pub open spec fn combine(self, other: PaneInvalidation) -> PaneInvalidation {
        PaneInvalidation {
            level: self.level.spec_max(other.level),
            auto_scale: self.auto_scale || other.auto_scale,
        }
    }
}

/// The pane-request map after adding `inv` for pane `index`.
pub open spec fn add_pane_invalidation(
    panes: Map<usize, PaneInvalidation>,
    index: usize,
    inv: PaneInvalidation,
) -> Map<usize, PaneInvalidation> {
    if panes.contains_key(index) {
        panes.insert(index, panes[index].combine(inv))
    } else {
        panes.insert(index, inv)
    }
}

/// The pane-request map holding the requests of both maps, combined where both have one.
pub open spec fn merge_pane_maps(
    a: Map<usize, PaneInvalidation>,
    b: Map<usize, PaneInvalidation>,
) -> Map<usize, PaneInvalidation> {
    Map::new(
        |k: usize| a.contains_key(k) || b.contains_key(k),
        |k: usize|
            if a.contains_key(k) && b.contains_key(k) {
                a[k].combine(b[k])
            } else if a.contains_key(k) {
                a[k]
            } else {
                b[k]
            },
    )
}


/// The entries a `BTreeMap<usize, _>` iterator yields: every entry of the map once, keys
/// strictly increasing.
proof fn lemma_ordered_entries(
    m: &BTreeMap<usize, PaneInvalidation>,
    iter: std::collections::btree_map::Iter<'_, usize, PaneInvalidation>,
)
    requires
        iter == vstd::std_specs::btree::spec_btree_map_iter(m),
        vstd::std_specs::btree::increasing_seq(
            iter.remaining().map_values(|kv: (&usize, &PaneInvalidation)| *kv.0),
        ),
    ensures
        iter.remaining().len() == m@.dom().len(),
        forall|i: int, j: int|
            0 <= i < j < iter.remaining().len() ==> *iter.remaining()[i].0
                < *iter.remaining()[j].0,
        forall|i: int|
            0 <= i < iter.remaining().len() ==> m@.contains_key(*iter.remaining()[i].0)
                && m@[*iter.remaining()[i].0] == *iter.remaining()[i].1,
        forall|k: usize| #[trigger] m@.contains_key(k) ==> iter.remaining().contains((&k, &m@[k])),
{
    broadcast use vstd::laws_cmp::group_laws_cmp;
    let v = iter.remaining();
    let keys = v.map_values(|kv: (&usize, &PaneInvalidation)| *kv.0);
    assert(vstd::laws_cmp::obeys_cmp::<usize>());
    vstd::std_specs::btree::axiom_increasing_seq_meaning::<usize>(keys);
    assert forall|i: int, j: int| 0 <= i < j < v.len() implies *v[i].0 < *v[j].0 by {
        assert(keys[i] == *v[i].0);
        assert(keys[j] == *v[j].0);
        assert(vstd::std_specs::cmp::OrdSpec::cmp_spec(&keys[i], &keys[j]) is Less);
    }
}



/// Combining pane requests is commutative.
pub proof fn lemma_combine_commutative(a: PaneInvalidation, b: PaneInvalidation)
    ensures
        a.combine(b) == b.combine(a),
{
}

/// Combining pane requests is associative.
pub proof fn lemma_combine_associative(
    a: PaneInvalidation,
    b: PaneInvalidation,
    c: PaneInvalidation,
)
    ensures
        a.combine(b).combine(c) == a.combine(b.combine(c)),
{
}

/// Combining a pane request with itself changes nothing.
pub proof fn lemma_combine_idempotent(a: PaneInvalidation)
    ensures
        a.combine(a) == a,
{
}

/// Merging pane-request maps is commutative.
pub proof fn lemma_merge_pane_maps_commutative(
    a: Map<usize, PaneInvalidation>,
    b: Map<usize, PaneInvalidation>,
)
    ensures
        merge_pane_maps(a, b) == merge_pane_maps(b, a),
{
    assert(merge_pane_maps(a, b) =~= merge_pane_maps(b, a));
}

/// Merging pane-request maps is associative.
pub proof fn lemma_merge_pane_maps_associative(
    a: Map<usize, PaneInvalidation>,
    b: Map<usize, PaneInvalidation>,
    c: Map<usize, PaneInvalidation>,
)
    ensures
        merge_pane_maps(merge_pane_maps(a, b), c) == merge_pane_maps(a, merge_pane_maps(b, c)),
{
    assert(merge_pane_maps(merge_pane_maps(a, b), c) =~= merge_pane_maps(
        a,
        merge_pane_maps(b, c),
    ));
}

/// Merging a pane-request map into itself changes nothing.
pub proof fn lemma_merge_pane_maps_idempotent(a: Map<usize, PaneInvalidation>)
    ensures
        merge_pane_maps(a, a) == a,
{
    assert(merge_pane_maps(a, a) =~= a);
}

/// Merging never weakens a request: after a merge, every pane that either side asked for is
/// asked for at least as strongly, and auto-scale requests are kept.
pub proof fn lemma_merge_pane_maps_keeps_requests(
    a: Map<usize, PaneInvalidation>,
    b: Map<usize, PaneInvalidation>,
    k: usize,
)
    requires
        a.contains_key(k),
    ensures
        merge_pane_maps(a, b).contains_key(k),
        merge_pane_maps(a, b)[k].level.rank() >= a[k].level.rank(),
        a[k].auto_scale ==> merge_pane_maps(a, b)[k].auto_scale,
{
}

/// The stronger of two levels is commutative and at least as strong as either.
pub proof fn lemma_level_max(a: InvalidationLevel, b: InvalidationLevel)
    ensures
        a.spec_max(b) == b.spec_max(a),
        a.spec_max(b).rank() >= a.rank(),
        a.spec_max(b).rank() >= b.rank(),
        a.spec_max(b) == a || a.spec_max(b) == b,
{
}

/// The keys of the first `n` entries.
pub open spec fn entry_keys(entries: Seq<(&usize, &PaneInvalidation)>, n: int) -> Set<usize> {
    Set::new(|k: usize| exists|a: int| 0 <= a < n && *entries[a].0 == k)
}

/// A pending redraw request of the chart model.
#[derive(Debug)]
pub struct InvalidateMask {
    invalidated_panes: BTreeMap<usize, PaneInvalidation>,
    global_level: InvalidationLevel,
    time_scale_invalidations: Vec<TimeScaleInvalidation>,
}

impl InvalidateMask {
    /// The explicit per-pane requests.
    pub closed spec fn pane_map(&self) -> Map<usize, PaneInvalidation> {
        self.invalidated_panes@
    }

    /// The chart-wide level.
    pub closed spec fn global(&self) -> InvalidationLevel {
        self.global_level
    }

    /// The pending time-scale changes, in order.
    pub closed spec fn time_scale_list(&self) -> Seq<TimeScaleInvalidation> {
        self.time_scale_invalidations@
    }

    /// `self` is what merging `other` into `base` gives.
    pub open spec fn is_merge_of(&self, base: InvalidateMask, other: InvalidateMask) -> bool {
        &&& self.time_scale_list() == apply_time_scale_invalidations(
            base.time_scale_list(),
            other.time_scale_list(),
        )
        &&& self.global() == base.global().spec_max(other.global())
        &&& self.pane_map() == merge_pane_maps(base.pane_map(), other.pane_map())
    }

    /// The mask holds the given chart-wide level and nothing else.
    pub open spec fn is_plain(&self, level: InvalidationLevel) -> bool {
        &&& self.global() == level
        &&& self.pane_map() == Map::<usize, PaneInvalidation>::empty()
        &&& self.time_scale_list() == Seq::<TimeScaleInvalidation>::empty()
    }

    /// A request of the given chart-wide level and nothing else.
    pub fn new(global_level: InvalidationLevel) -> (m: InvalidateMask)
        ensures
            m.global() == global_level,
            m.pane_map() == Map::<usize, PaneInvalidation>::empty(),
            m.time_scale_list() == Seq::<TimeScaleInvalidation>::empty(),
    {
        InvalidateMask {
            invalidated_panes: BTreeMap::new(),
            global_level,
            time_scale_invalidations: Vec::new(),
        }
    }

    /// A full chart-wide request.
    pub fn full() -> (m: InvalidateMask)
        ensures
            m.global() == InvalidationLevel::Full,
            m.pane_map() == Map::<usize, PaneInvalidation>::empty(),
            m.time_scale_list() == Seq::<TimeScaleInvalidation>::empty(),
    {
        InvalidateMask::new(InvalidationLevel::Full)
    }

    /// A light chart-wide request.
    pub fn light() -> (m: InvalidateMask)
        ensures
            m.global() == InvalidationLevel::Light,
            m.pane_map() == Map::<usize, PaneInvalidation>::empty(),
            m.time_scale_list() == Seq::<TimeScaleInvalidation>::empty(),
    {
        InvalidateMask::new(InvalidationLevel::Light)
    }

    /// The chart-wide level.
    pub fn full_invalidation(&self) -> (r: InvalidationLevel)
        ensures
            r == self.global(),
    {
        self.global_level
    }

    /// The effective request for one pane: the chart-wide level raised by the pane's own
    /// request, with auto-scale only if the pane asked for it.
    pub fn invalidation_for_pane(&self, pane_index: usize) -> (r: PaneInvalidation)
        ensures
            self.pane_map().contains_key(pane_index) ==> r == (PaneInvalidation {
                level: self.global().spec_max(self.pane_map()[pane_index].level),
                auto_scale: self.pane_map()[pane_index].auto_scale,
            }),
            !self.pane_map().contains_key(pane_index) ==> r == (PaneInvalidation {
                level: self.global(),
                auto_scale: false,
            }),
    {
        match self.invalidated_panes.get(&pane_index) {
            Some(pane) => PaneInvalidation {
                level: self.global_level.max(pane.level),
                auto_scale: pane.auto_scale,
            },
            None => PaneInvalidation { level: self.global_level, auto_scale: false },
        }
    }

    /// The pending time-scale changes, in order.
    pub fn time_scale_invalidations(&self) -> (r: &[TimeScaleInvalidation])
        ensures
            r@ == self.time_scale_list(),
    {
        self.time_scale_invalidations.as_slice()
    }

    /// Drops the first pending animation, if there is one.
    fn remove_time_scale_animation(&mut self)
        ensures
            final(self).time_scale_list() == without_first_animation(old(self).time_scale_list()),
            final(self).pane_map() == old(self).pane_map(),
            final(self).global() == old(self).global(),
    {
        let len = self.time_scale_invalidations.len();
        let mut i: usize = 0;
        while i < len
            invariant
                len == self.time_scale_invalidations@.len(),
                self.time_scale_invalidations@ == old(self).time_scale_invalidations@,
                self.invalidated_panes == old(self).invalidated_panes,
                self.global_level == old(self).global_level,
                i <= len,
                forall|j: int| 0 <= j < i ==> !(#[trigger] self.time_scale_invalidations@[j] is Animation),
            decreases len - i,
        {
            if let TimeScaleInvalidation::Animation(_) = self.time_scale_invalidations[i] {
                proof {
                    let s = self.time_scale_invalidations@;
                    assert(is_first_animation(s, i as int));
                    assert forall|q: int| is_first_animation(s, q) implies q == i by {
                        if q < i {
                        } else if q > i {
                            assert(!(s[i as int] is Animation));
                        }
                    }
                }
                self.time_scale_invalidations.remove(i);
                return;
            }
            i = i + 1;
        }
    }

    /// Stops any running animation: the pending animation is dropped and a stop is queued.
    pub fn stop_time_scale_animation(&mut self)
        ensures
            final(self).time_scale_list() == with_stopped_animation(old(self).time_scale_list()),
            final(self).pane_map() == old(self).pane_map(),
            final(self).global() == old(self).global(),
    {
        self.remove_time_scale_animation();
        self.time_scale_invalidations.push(TimeScaleInvalidation::StopAnimation);
    }

    /// Replaces the pending time-scale changes with a fit-content request.
    pub fn set_fit_content(&mut self)
        ensures
            final(self).time_scale_list() == seq![TimeScaleInvalidation::FitContent],
            final(self).pane_map() == old(self).pane_map(),
            final(self).global() == old(self).global(),
    {
        self.stop_time_scale_animation();
        self.time_scale_invalidations = vec![TimeScaleInvalidation::FitContent];
    }

    /// Replaces the pending time-scale changes with a request to show `range`.
    pub fn apply_range(&mut self, range: LogicalRange)
        ensures
            final(self).time_scale_list() == seq![TimeScaleInvalidation::ApplyRange(range)],
            final(self).pane_map() == old(self).pane_map(),
            final(self).global() == old(self).global(),
    {
        self.stop_time_scale_animation();
        self.time_scale_invalidations = vec![TimeScaleInvalidation::ApplyRange(range)];
    }

    /// Stops the animation and queues a bar-spacing change.
    pub fn set_bar_spacing(&mut self, spacing: F64Bits)
        ensures
            final(self).time_scale_list() == with_stopped_animation(old(self).time_scale_list()).push(
                TimeScaleInvalidation::ApplyBarSpacing(spacing),
            ),
            final(self).pane_map() == old(self).pane_map(),
            final(self).global() == old(self).global(),
    {
        self.stop_time_scale_animation();
        self.time_scale_invalidations.push(TimeScaleInvalidation::ApplyBarSpacing(spacing));
    }

    /// Stops the animation and queues a right-offset change.
    pub fn set_right_offset(&mut self, offset: F64Bits)
        ensures
            final(self).time_scale_list() == with_stopped_animation(old(self).time_scale_list()).push(
                TimeScaleInvalidation::ApplyRightOffset(offset),
            ),
            final(self).pane_map() == old(self).pane_map(),
            final(self).global() == old(self).global(),
    {
        self.stop_time_scale_animation();
        self.time_scale_invalidations.push(TimeScaleInvalidation::ApplyRightOffset(offset));
    }

    /// Replaces the pending time-scale changes with a reset request.
    pub fn reset_time_scale(&mut self)
        ensures
            final(self).time_scale_list() == seq![TimeScaleInvalidation::Reset],
            final(self).pane_map() == old(self).pane_map(),
            final(self).global() == old(self).global(),
    {
        self.stop_time_scale_animation();
        self.time_scale_invalidations = vec![TimeScaleInvalidation::Reset];
    }

    /// Replaces the pending animation, if any, with `animation`.
    pub fn set_time_scale_animation(&mut self, animation: TimeScaleAnimation)
        ensures
            final(self).time_scale_list() == without_first_animation(old(self).time_scale_list()).push(
                TimeScaleInvalidation::Animation(animation),
            ),
            final(self).pane_map() == old(self).pane_map(),
            final(self).global() == old(self).global(),
    {
        self.remove_time_scale_animation();
        self.time_scale_invalidations.push(TimeScaleInvalidation::Animation(animation));
    }

    fn apply_time_scale_invalidation(&mut self, invalidation: TimeScaleInvalidation)
        ensures
            final(self).time_scale_list() == apply_time_scale_invalidation(
                old(self).time_scale_list(),
                invalidation,
            ),
            final(self).pane_map() == old(self).pane_map(),
            final(self).global() == old(self).global(),
    {
        match invalidation {
            TimeScaleInvalidation::FitContent => self.set_fit_content(),
            TimeScaleInvalidation::ApplyRange(range) => self.apply_range(range),
            TimeScaleInvalidation::ApplyBarSpacing(spacing) => self.set_bar_spacing(spacing),
            TimeScaleInvalidation::ApplyRightOffset(offset) => self.set_right_offset(offset),
            TimeScaleInvalidation::Reset => self.reset_time_scale(),
            TimeScaleInvalidation::Animation(animation) => self.set_time_scale_animation(animation),
            TimeScaleInvalidation::StopAnimation => self.remove_time_scale_animation(),
        }
    }

    /// Adds a request for one pane, combining it with an earlier request for that pane.
    pub fn invalidate_pane(&mut self, pane_index: usize, invalidation: PaneInvalidation)
        ensures
            final(self).pane_map() == add_pane_invalidation(old(self).pane_map(), pane_index, invalidation),
            final(self).global() == old(self).global(),
            final(self).time_scale_list() == old(self).time_scale_list(),
    {
        let merged = match self.invalidated_panes.get(&pane_index) {
            Some(previous) => PaneInvalidation {
                level: previous.level.max(invalidation.level),
                auto_scale: previous.auto_scale || invalidation.auto_scale,
            },
            None => invalidation,
        };
        self.invalidated_panes.insert(pane_index, merged);
    }

    /// The explicit per-pane requests, ordered by pane index.
    pub fn explicit_pane_invalidations(&self) -> (r: Vec<(usize, PaneInvalidation)>)
        ensures
            r@.len() == self.pane_map().dom().len(),
            forall|i: int, j: int| 0 <= i < j < r@.len() ==> r@[i].0 < r@[j].0,
            forall|i: int|
                0 <= i < r@.len() ==> self.pane_map().contains_key(#[trigger] r@[i].0)
                    && self.pane_map()[r@[i].0] == r@[i].1,
            forall|k: usize|
                #[trigger] self.pane_map().contains_key(k) ==> exists|i: int|
                    0 <= i < r@.len() && r@[i].0 == k,
    {
        let mut r: Vec<(usize, PaneInvalidation)> = Vec::new();
        let iter = self.invalidated_panes.iter();
        let ghost entries = iter.remaining();
        proof {
            lemma_ordered_entries(&self.invalidated_panes, iter);
        }
        for entry in it: iter
            invariant
                it.seq() == entries,
                r@.len() == it.index(),
                forall|i: int|
                    0 <= i < it.index() ==> r@[i] == (*entries[i].0, *entries[i].1),
        {
            let (k, v) = entry;
            r.push((*k, *v));
        }
        proof {
            assert forall|k: usize| #[trigger] self.pane_map().contains_key(k) implies exists|i: int|
                0 <= i < r@.len() && r@[i].0 == k by {
                assert(entries.contains((&k, &self.pane_map()[k])));
                let idx = choose|idx: int|
                    0 <= idx < entries.len() && entries[idx] == (&k, &self.pane_map()[k]);
                assert(r@[idx].0 == k);
            }
        }
        r
    }

    /// Merges another request into this one: its time-scale changes are applied in order,
    /// the chart-wide level becomes the stronger of the two, and the per-pane requests are
    /// combined pane by pane.
    pub fn merge(&mut self, other: &InvalidateMask)
        ensures
            final(self).time_scale_list() == apply_time_scale_invalidations(
                old(self).time_scale_list(),
                other.time_scale_list(),
            ),
            final(self).global() == old(self).global().spec_max(other.global()),
            final(self).pane_map() == merge_pane_maps(old(self).pane_map(), other.pane_map()),
    {
        let n = other.time_scale_invalidations.len();
        let ghost others = other.time_scale_invalidations@;
        let mut i: usize = 0;
        while i < n
            invariant
                n == others.len(),
                others == other.time_scale_list(),
                i <= n,
                self.time_scale_list() == apply_time_scale_invalidations(
                    old(self).time_scale_list(),
                    others.take(i as int),
                ),
                self.pane_map() == old(self).pane_map(),
                self.global() == old(self).global(),
            decreases n - i,
        {
            proof {
                assert(others.take(i + 1).drop_last() =~= others.take(i as int));
            }
            self.apply_time_scale_invalidation(other.time_scale_invalidations[i]);
            i = i + 1;
        }
        proof {
            assert(others.take(n as int) =~= others);
        }
        self.global_level = self.global_level.max(other.global_level);

        let iter = other.invalidated_panes.iter();
        let ghost entries = iter.remaining();
        let ghost base = self.pane_map();
        proof {
            lemma_ordered_entries(&other.invalidated_panes, iter);
        }
        for entry in it: iter
            invariant
                it.seq() == entries,
                entries.len() == other.pane_map().dom().len(),
                forall|a: int, b: int| 0 <= a < b < entries.len() ==> *entries[a].0 < *entries[b].0,
                forall|a: int|
                    0 <= a < entries.len() ==> other.pane_map().contains_key(*entries[a].0)
                        && other.pane_map()[*entries[a].0] == *entries[a].1,
                forall|k: usize| #[trigger]
                    other.pane_map().contains_key(k) ==> entries.contains((&k, &other.pane_map()[k])),
                self.pane_map() == merge_pane_maps(
                    base,
                    other.pane_map().restrict(entry_keys(entries, it.index())),
                ),
                self.time_scale_list() == apply_time_scale_invalidations(
                    old(self).time_scale_list(),
                    other.time_scale_list(),
                ),
                self.global() == old(self).global().spec_max(other.global()),
        {
            let (k, v) = entry;
            let ghost idx = it.index();
            proof {
                let prev = other.pane_map().restrict(entry_keys(entries, idx));
                let next = other.pane_map().restrict(entry_keys(entries, idx + 1));
                assert(!entry_keys(entries, idx).contains(*k)) by {
                    if entry_keys(entries, idx).contains(*k) {
                        let a = choose|a: int| 0 <= a < idx && *entries[a].0 == *k;
                        assert(*entries[a].0 < *entries[idx].0);
                    }
                }
                assert(entry == entries[idx]);
                assert(entry_keys(entries, idx + 1).contains(*k));
                assert forall|x: usize| #[trigger] entry_keys(entries, idx + 1).contains(x) implies
                    entry_keys(entries, idx).insert(*k).contains(x) by {
                    let a = choose|a: int| 0 <= a < idx + 1 && *entries[a].0 == x;
                    if a < idx {
                        assert(entry_keys(entries, idx).contains(x));
                    }
                }
                assert forall|x: usize| #[trigger] entry_keys(entries, idx).contains(x) implies
                    entry_keys(entries, idx + 1).contains(x) by {
                    let a = choose|a: int| 0 <= a < idx && *entries[a].0 == x;
                    assert(0 <= a < idx + 1 && *entries[a].0 == x);
                }
                assert(entry_keys(entries, idx + 1) =~= entry_keys(entries, idx).insert(*k));
                assert(merge_pane_maps(base, next) =~= add_pane_invalidation(
                    merge_pane_maps(base, prev),
                    *k,
                    *v,
                ));
            }
            self.invalidate_pane(*k, *v);
        }
        proof {
            assert forall|k: usize| other.pane_map().contains_key(k) implies entry_keys(
                entries,
                entries.len() as int,
            ).contains(k) by {
                assert(entries.contains((&k, &other.pane_map()[k])));
                let a = choose|a: int| 0 <= a < entries.len() && entries[a] == (&k, &other.pane_map()[k]);
                assert(*entries[a].0 == k);
            }
            assert(other.pane_map().restrict(entry_keys(entries, entries.len() as int))
                =~= other.pane_map());
        }
    }
}

impl Clone for InvalidateMask {
    fn clone(&self) -> (r: InvalidateMask)
        ensures
            r.pane_map() == self.pane_map(),
            r.global() == self.global(),
            r.time_scale_list() == self.time_scale_list(),
    {
        InvalidateMask {
            invalidated_panes: self.invalidated_panes.clone(),
            global_level: self.global_level,
            time_scale_invalidations: self.time_scale_invalidations.clone(),
        }
    }
}


/// A bar-spacing or right-offset change merged into pending changes acts as the public
/// setters do: the first pending animation is dropped, a stop of the animation is queued, and
/// the change comes last.
pub proof fn lemma_merged_spacing_and_offset_stop_animation(
    s: Seq<TimeScaleInvalidation>,
    x: F64Bits,
)
    ensures
        apply_time_scale_invalidations(s, seq![TimeScaleInvalidation::ApplyBarSpacing(x)])
            == without_first_animation(s).push(TimeScaleInvalidation::StopAnimation).push(
            TimeScaleInvalidation::ApplyBarSpacing(x),
        ),
        apply_time_scale_invalidations(s, seq![TimeScaleInvalidation::ApplyRightOffset(x)])
            == without_first_animation(s).push(TimeScaleInvalidation::StopAnimation).push(
            TimeScaleInvalidation::ApplyRightOffset(x),
        ),
        apply_time_scale_invalidation(s, TimeScaleInvalidation::ApplyBarSpacing(x)).len() >= 2,
        apply_time_scale_invalidation(s, TimeScaleInvalidation::ApplyBarSpacing(x)).last()
            == TimeScaleInvalidation::ApplyBarSpacing(x),
        apply_time_scale_invalidation(s, TimeScaleInvalidation::ApplyBarSpacing(x))[apply_time_scale_invalidation(
            s,
            TimeScaleInvalidation::ApplyBarSpacing(x),
        ).len() - 2] == TimeScaleInvalidation::StopAnimation,
{
    let one = seq![TimeScaleInvalidation::ApplyBarSpacing(x)];
    assert(one.drop_last() =~= Seq::<TimeScaleInvalidation>::empty());
    assert(apply_time_scale_invalidations(s, one.drop_last()) == s);
    assert(one.last() == TimeScaleInvalidation::ApplyBarSpacing(x));
    let two = seq![TimeScaleInvalidation::ApplyRightOffset(x)];
    assert(two.drop_last() =~= Seq::<TimeScaleInvalidation>::empty());
    assert(apply_time_scale_invalidations(s, two.drop_last()) == s);
    assert(two.last() == TimeScaleInvalidation::ApplyRightOffset(x));
}

} // verus!
