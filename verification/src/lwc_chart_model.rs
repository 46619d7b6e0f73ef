use vstd::prelude::*;

use crate::error::{invalid_data, is_invalid_data, ChartResult};
use crate::float_bits::{bits_finite_positive, finite_positive, F64Bits};
use crate::lwc_invalidate_mask::{
    apply_time_scale_invalidations, merge_pane_maps, InvalidateMask,
    InvalidationLevel, PaneInvalidation, TimeScaleAnimation, TimeScaleInvalidation,
};
use crate::pane::PaneId;

verus! {

/// `result` is the pending request after a request with the given chart-wide level, pane
/// requests and time-scale changes came in on top of `pending`.
pub open spec fn merged_into(
    pending: Option<InvalidateMask>,
    result: Option<InvalidateMask>,
    global: InvalidationLevel,
    panes: Map<usize, PaneInvalidation>,
    changes: Seq<TimeScaleInvalidation>,
) -> bool {
    result matches Some(q) && match pending {
        Some(p) => {
            &&& q.time_scale_list() == apply_time_scale_invalidations(p.time_scale_list(), changes)
            &&& q.global() == p.global().spec_max(global)
            &&& q.pane_map() == merge_pane_maps(p.pane_map(), panes)
        },
        None => {
            &&& q.time_scale_list() == changes
            &&& q.global() == global
            &&& q.pane_map() == panes
        },
    }
}

/// A new request never lowers the pending chart-wide level: the result is at least as strong
/// as what was pending and as what came in.
pub proof fn lemma_invalidate_never_lowers_level(
    pending: Option<InvalidateMask>,
    result: Option<InvalidateMask>,
    global: InvalidationLevel,
    panes: Map<usize, PaneInvalidation>,
    changes: Seq<TimeScaleInvalidation>,
)
    requires
        merged_into(pending, result, global, panes, changes),
    ensures
        result matches Some(q) && q.global().rank() >= global.rank() && (pending matches Some(p)
            ==> q.global().rank() >= p.global().rank()),
{
    if let Some(p) = pending {
        crate::lwc_invalidate_mask::lemma_level_max(p.global(), global);
    }
}

/// The first occurrence of `s[k]` in `s` is at `k`.
pub open spec fn first_occurrence(s: Seq<PaneId>, k: int) -> bool {
    forall|j: int| 0 <= j < k ==> s[j] != s[k]
}

/// `i` is the last position of `id` in `s`.
pub open spec fn is_last_position(s: Seq<PaneId>, id: PaneId, i: int) -> bool {
    &&& 0 <= i < s.len()
    &&& s[i] == id
    &&& forall|j: int| i < j < s.len() ==> s[j] != id
}

/// A plan to rebuild the panes in the requested order: entry `k` names the current pane that
/// is moved to position `k`, which is the last current pane with the requested identifier
/// when the identifier is requested there for the first time, and `None` where a new pane is
/// made.
pub open spec fn is_pane_sync_plan(
    current: Seq<PaneId>,
    requested: Seq<PaneId>,
    plan: Seq<Option<usize>>,
) -> bool {
    &&& plan.len() == requested.len()
    &&& forall|k: int|
        0 <= k < requested.len() ==> match #[trigger] plan[k] {
            Some(i) => first_occurrence(requested, k) && is_last_position(
                current,
                requested[k],
                i as int,
            ),
            None => !first_occurrence(requested, k) || !current.contains(requested[k]),
        }
}

/// The sequences hold the same identifiers in the same order.
fn same_pane_ids(a: &[PaneId], b: &[PaneId]) -> (r: bool)
    ensures
        r == (a@ == b@),
{
    if a.len() != b.len() {
        return false;
    }
    let mut i: usize = 0;
    while i < a.len()
        invariant
            a@.len() == b@.len(),
            i <= a@.len(),
            forall|j: int| 0 <= j < i ==> a@[j] == b@[j],
        decreases a@.len() - i,
    {
        if a[i] != b[i] {
            return false;
        }
        i += 1;
    }
    assert(a@ =~= b@);
    true
}

fn copy_pane_ids(s: &[PaneId]) -> (r: Vec<PaneId>)
    ensures
        r@ == s@,
{
    let mut r: Vec<PaneId> = Vec::new();
    let mut i: usize = 0;
    while i < s.len()
        invariant
            i <= s@.len(),
            r@ == s@.take(i as int),
        decreases s@.len() - i,
    {
        r.push(s[i]);
        i += 1;
        assert(r@ =~= s@.take(i as int));
    }
    assert(s@.take(s@.len() as int) =~= s@);
    r
}

/// The identifier at `k` occurs earlier in `s`.
fn occurs_before(s: &[PaneId], k: usize) -> (r: bool)
    requires
        k < s@.len(),
    ensures
        r == !first_occurrence(s@, k as int),
{
    let mut j: usize = 0;
    while j < k
        invariant
            k < s@.len(),
            j <= k,
            forall|i: int| 0 <= i < j ==> s@[i] != s@[k as int],
        decreases k - j,
    {
        if s[j] == s[k] {
            return true;
        }
        j += 1;
    }
    false
}

/// The last position of `id` in `s`.
fn last_position(s: &[PaneId], id: PaneId) -> (r: Option<usize>)
    ensures
        r matches Some(i) ==> is_last_position(s@, id, i as int),
        r is None ==> !s@.contains(id),
{
    let mut i: usize = s.len();
    while i > 0
        invariant
            i <= s@.len(),
            forall|j: int| i <= j < s@.len() ==> s@[j] != id,
        decreases i,
    {
        i -= 1;
        if s[i] == id {
            return Some(i);
        }
    }
    None
}

/// The plan that rebuilds `current` in the order of `requested`.
fn pane_sync_plan(current: &[PaneId], requested: &[PaneId]) -> (r: Vec<Option<usize>>)
    ensures
        is_pane_sync_plan(current@, requested@, r@),
{
    let mut plan: Vec<Option<usize>> = Vec::new();
    let mut k: usize = 0;
    while k < requested.len()
        invariant
            k <= requested@.len(),
            plan@.len() == k,
            forall|m: int|
                0 <= m < k ==> match #[trigger] plan@[m] {
                    Some(i) => first_occurrence(requested@, m) && is_last_position(
                        current@,
                        requested@[m],
                        i as int,
                    ),
                    None => !first_occurrence(requested@, m) || !current@.contains(requested@[m]),
                },
        decreases requested@.len() - k,
    {
        if occurs_before(requested, k) {
            plan.push(None);
        } else {
            plan.push(last_position(current, requested[k]));
        }
        k += 1;
    }
    plan
}

/// The bookkeeping of a lightweight chart model: its width, the identifiers of its panes in
/// order, and the pending redraw request.
///
/// The time-scale geometry and the price scales of each pane are kept by the host, which
/// applies the time-scale changes of a request before queuing it here.
#[derive(Debug)]
pub struct ChartModel {
    width: F64Bits,
    pane_ids: Vec<PaneId>,
    pending_invalidation: Option<InvalidateMask>,
}

impl ChartModel {
    /// The width in pixels (encoded `f64`).
    pub closed spec fn spec_width(&self) -> F64Bits {
        self.width
    }

    /// The identifiers of the panes, in order.
    pub closed spec fn spec_pane_ids(&self) -> Seq<PaneId> {
        self.pane_ids@
    }

    /// The pending redraw request.
    pub closed spec fn spec_pending(&self) -> Option<InvalidateMask> {
        self.pending_invalidation
    }

    /// A model with the main pane (identifier 0) and a pending full redraw.
    pub fn with_default_pane(width: F64Bits) -> (r: ChartModel)
        ensures
            r.spec_width() == width,
            r.spec_pane_ids().len() == 1,
            r.spec_pane_ids()[0]@ == 0,
            r.spec_pending() matches Some(m) && m.is_plain(InvalidationLevel::Full),
    {
        let mut pane_ids: Vec<PaneId> = Vec::new();
        pane_ids.push(PaneId::new(0));
        ChartModel { width, pane_ids, pending_invalidation: Some(InvalidateMask::full()) }
    }

    /// The width in pixels (encoded `f64`).
    pub fn width(&self) -> (r: F64Bits)
        ensures
            r == self.spec_width(),
    {
        self.width
    }

    /// Sets a finite positive width and queues a full redraw.
    pub fn set_width(&mut self, width: F64Bits) -> (r: ChartResult<()>)
        ensures
            r is Ok <==> finite_positive(width),
            !finite_positive(width) ==> is_invalid_data(
                r,
                "chart model width must be finite and > 0"@,
            ) && final(self).spec_width() == old(self).spec_width() && final(self).spec_pending()
                == old(self).spec_pending(),
            finite_positive(width) ==> final(self).spec_width() == width && merged_into(
                old(self).spec_pending(),
                final(self).spec_pending(),
                InvalidationLevel::Full,
                Map::empty(),
                Seq::empty(),
            ),
            final(self).spec_pane_ids() == old(self).spec_pane_ids(),
    {
        if !bits_finite_positive(width) {
            return Err(invalid_data("chart model width must be finite and > 0"));
        }
        self.width = width;
        self.invalidate(InvalidateMask::full());
        Ok(())
    }

    /// The identifiers of the panes, in order.
    pub fn pane_ids(&self) -> (r: &[PaneId])
        ensures
            r@ == self.spec_pane_ids(),
    {
        self.pane_ids.as_slice()
    }

    /// Merges a request into the pending one, or makes it the pending one.
    pub fn invalidate(&mut self, mask: InvalidateMask)
        ensures
            merged_into(
                old(self).spec_pending(),
                final(self).spec_pending(),
                mask.global(),
                mask.pane_map(),
                mask.time_scale_list(),
            ),
            final(self).spec_width() == old(self).spec_width(),
            final(self).spec_pane_ids() == old(self).spec_pane_ids(),
    {
        match self.pending_invalidation.take() {
            Some(mut pending) => {
                pending.merge(&mask);
                self.pending_invalidation = Some(pending);
            },
            None => {
                self.pending_invalidation = Some(mask);
            },
        }
    }

    /// The pending redraw request.
    pub fn pending_invalidation(&self) -> (r: Option<&InvalidateMask>)
        ensures
            r matches Some(m) ==> self.spec_pending() == Some(*m),
            r is None <==> self.spec_pending() is None,
    {
        self.pending_invalidation.as_ref()
    }

    /// Takes the pending redraw request, leaving none.
    pub fn take_pending_invalidation(&mut self) -> (r: Option<InvalidateMask>)
        ensures
            r == old(self).spec_pending(),
            final(self).spec_pending() is None,
            final(self).spec_width() == old(self).spec_width(),
            final(self).spec_pane_ids() == old(self).spec_pane_ids(),
    {
        self.pending_invalidation.take()
    }

    /// Queues a full redraw.
    pub fn full_update(&mut self)
        ensures
            merged_into(
                old(self).spec_pending(),
                final(self).spec_pending(),
                InvalidationLevel::Full,
                Map::empty(),
                Seq::empty(),
            ),
            final(self).spec_width() == old(self).spec_width(),
            final(self).spec_pane_ids() == old(self).spec_pane_ids(),
    {
        self.invalidate(InvalidateMask::full());
    }

    /// Queues a light redraw.
    pub fn light_update(&mut self)
        ensures
            merged_into(
                old(self).spec_pending(),
                final(self).spec_pending(),
                InvalidationLevel::Light,
                Map::empty(),
                Seq::empty(),
            ),
            final(self).spec_width() == old(self).spec_width(),
            final(self).spec_pane_ids() == old(self).spec_pane_ids(),
    {
        self.invalidate(InvalidateMask::light());
    }

    /// Queues a cursor redraw.
    pub fn cursor_update(&mut self)
        ensures
            merged_into(
                old(self).spec_pending(),
                final(self).spec_pending(),
                InvalidationLevel::Cursor,
                Map::empty(),
                Seq::empty(),
            ),
            final(self).spec_width() == old(self).spec_width(),
            final(self).spec_pane_ids() == old(self).spec_pane_ids(),
    {
        self.invalidate(InvalidateMask::new(InvalidationLevel::Cursor));
    }

    /// Queues a light redraw that starts a time-scale animation.
    pub fn set_time_scale_animation(&mut self, animation: TimeScaleAnimation)
        ensures
            merged_into(
                old(self).spec_pending(),
                final(self).spec_pending(),
                InvalidationLevel::Light,
                Map::empty(),
                seq![TimeScaleInvalidation::Animation(animation)],
            ),
            final(self).spec_width() == old(self).spec_width(),
            final(self).spec_pane_ids() == old(self).spec_pane_ids(),
    {
        let mut mask = InvalidateMask::light();
        mask.set_time_scale_animation(animation);
        assert(mask.time_scale_list() =~= seq![TimeScaleInvalidation::Animation(animation)]);
        self.invalidate(mask);
    }

    /// Queues a light redraw that stops the time-scale animation.
    pub fn stop_time_scale_animation(&mut self)
        ensures
            merged_into(
                old(self).spec_pending(),
                final(self).spec_pending(),
                InvalidationLevel::Light,
                Map::empty(),
                seq![TimeScaleInvalidation::StopAnimation],
            ),
            final(self).spec_width() == old(self).spec_width(),
            final(self).spec_pane_ids() == old(self).spec_pane_ids(),
    {
        let mut mask = InvalidateMask::light();
        mask.stop_time_scale_animation();
        assert(mask.time_scale_list() =~= seq![TimeScaleInvalidation::StopAnimation]);
        self.invalidate(mask);
    }

    /// Queues a redraw of the given level for one pane, chart-wide at the same level.
    pub fn invalidate_pane(&mut self, pane_index: usize, level: InvalidationLevel, auto_scale: bool)
        ensures
            merged_into(
                old(self).spec_pending(),
                final(self).spec_pending(),
                level,
                map![pane_index => PaneInvalidation { level, auto_scale }],
                Seq::empty(),
            ),
            final(self).spec_width() == old(self).spec_width(),
            final(self).spec_pane_ids() == old(self).spec_pane_ids(),
    {
        let mut mask = InvalidateMask::new(level);
        mask.invalidate_pane(pane_index, PaneInvalidation { level, auto_scale });
        assert(mask.pane_map() =~= map![pane_index => PaneInvalidation { level, auto_scale }]);
        self.invalidate(mask);
    }
    /// Rebuilds the pane order from the requested identifiers.
    ///
    /// An empty request, or one equal to the current order, changes nothing and gives `None`.
    /// Otherwise the identifiers become the requested ones, a full redraw is queued, and the
    /// plan says which current pane moves to each position and where a new pane is made.
    pub fn sync_panes(&mut self, pane_ids: &[PaneId]) -> (r: Option<Vec<Option<usize>>>)
        ensures
            pane_ids@.len() == 0 || pane_ids@ == old(self).spec_pane_ids() ==> r is None
                && final(self).spec_pane_ids() == old(self).spec_pane_ids()
                && final(self).spec_pending() == old(self).spec_pending(),
            !(pane_ids@.len() == 0 || pane_ids@ == old(self).spec_pane_ids()) ==> {
                &&& r matches Some(plan) && is_pane_sync_plan(
                    old(self).spec_pane_ids(),
                    pane_ids@,
                    plan@,
                )
                &&& final(self).spec_pane_ids() == pane_ids@
                &&& merged_into(
                    old(self).spec_pending(),
                    final(self).spec_pending(),
                    InvalidationLevel::Full,
                    Map::empty(),
                    Seq::empty(),
                )
            },
            final(self).spec_width() == old(self).spec_width(),
    {
        if pane_ids.len() == 0 {
            return None;
        }
        if same_pane_ids(self.pane_ids.as_slice(), pane_ids) {
            return None;
        }
        let plan = pane_sync_plan(self.pane_ids.as_slice(), pane_ids);
        self.pane_ids = copy_pane_ids(pane_ids);
        self.full_update();
        Some(plan)
    }
}

} // verus!
