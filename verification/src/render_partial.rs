use vstd::prelude::*;

use crate::invalidation::{InvalidationLevel, InvalidationMask, InvalidationTopic};
use crate::lwc_invalidate_mask::{self as lwc, InvalidateMask};
use crate::pane::PaneId;
use crate::types::Viewport;

verus! {

/// Drawing layers of a pane, from back to front.
#[derive(Debug, Clone, Copy, PartialEq, Eq, Structural)]
pub enum CanvasLayerKind {
    Background,
    Grid,
    Series,
    Overlay,
    Crosshair,
    Axis,
}

/// The layer stack of one pane in a layered frame.
#[derive(Debug, Clone)]
pub struct PaneLayerStack {
    pub pane_id: PaneId,
    pub layers: Vec<CanvasLayerKind>,
}

/// The canonical back-to-front layer order.
pub open spec fn canonical_layers() -> Seq<CanvasLayerKind> {
    seq![
        CanvasLayerKind::Background,
        CanvasLayerKind::Grid,
        CanvasLayerKind::Series,
        CanvasLayerKind::Overlay,
        CanvasLayerKind::Crosshair,
        CanvasLayerKind::Axis,
    ]
}

impl PaneLayerStack {
    /// The canonical stack for `pane_id`.
    pub fn canonical_for_pane(pane_id: PaneId) -> (s: PaneLayerStack)
        ensures
            s.pane_id == pane_id,
            s.layers@ == canonical_layers(),
    {
        let layers = vec![
            CanvasLayerKind::Background,
            CanvasLayerKind::Grid,
            CanvasLayerKind::Series,
            CanvasLayerKind::Overlay,
            CanvasLayerKind::Crosshair,
            CanvasLayerKind::Axis,
        ];
        PaneLayerStack { pane_id, layers }
    }
}

/// A frame organised as one layer stack per pane.
#[derive(Debug, Clone)]
pub struct LayeredRenderFrame {
    pub viewport: Viewport,
    pub panes: Vec<PaneLayerStack>,
}

impl LayeredRenderFrame {
    /// The panes of the frame, in stack order.
    pub open spec fn pane_ids(&self) -> Seq<PaneId> {
        self.panes@.map_values(|s: PaneLayerStack| s.pane_id)
    }

    /// The frame has a stack for `pane_id`.
    pub open spec fn knows(&self, pane_id: PaneId) -> bool {
        exists|i: int| 0 <= i < self.panes@.len() && (#[trigger] self.panes@[i]).pane_id == pane_id
    }

    /// A frame made of the given stacks.
    pub fn from_stacks(viewport: Viewport, panes: Vec<PaneLayerStack>) -> (f: LayeredRenderFrame)
        ensures
            f.viewport == viewport,
            f.panes@ == panes@,
    {
        LayeredRenderFrame { viewport, panes }
    }

    /// Whether the frame has a stack for `pane_id`.
    pub fn has_pane(&self, pane_id: PaneId) -> (r: bool)
        ensures
            r == self.knows(pane_id),
    {
        let mut i: usize = 0;
        while i < self.panes.len()
            invariant
                i <= self.panes@.len(),
                forall|j: int| 0 <= j < i ==> (#[trigger] self.panes@[j]).pane_id != pane_id,
            decreases self.panes@.len() - i,
        {
            if self.panes[i].pane_id == pane_id {
                return true;
            }
            i = i + 1;
        }
        false
    }
}

/// An 800x500 frame with a canonical stack for each of `panes`, in order.
pub fn layered_with_panes(panes: &[PaneId]) -> (f: LayeredRenderFrame)
    ensures
        f.viewport == (Viewport { width: 800, height: 500 }),
        f.pane_ids() == panes@,
        forall|i: int| 0 <= i < f.panes@.len() ==> (#[trigger] f.panes@[i]).layers@ == canonical_layers(),
{
    let mut stacks: Vec<PaneLayerStack> = Vec::new();
    let mut i: usize = 0;
    while i < panes.len()
        invariant
            i <= panes@.len(),
            stacks@.len() == i,
            forall|j: int| 0 <= j < i ==> (#[trigger] stacks@[j]).pane_id == panes@[j],
            forall|j: int| 0 <= j < i ==> (#[trigger] stacks@[j]).layers@ == canonical_layers(),
        decreases panes@.len() - i,
    {
        stacks.push(PaneLayerStack::canonical_for_pane(panes[i]));
        i = i + 1;
    }
    let f = LayeredRenderFrame::from_stacks(Viewport::new(800, 500), stacks);
    assert(f.pane_ids() =~= panes@);
    f
}

/// Pane identifiers strictly increasing by raw value (so sorted and free of duplicates).
pub open spec fn sorted_unique(ids: Seq<PaneId>) -> bool {
    forall|i: int, j: int| 0 <= i < j < ids.len() ==> ids[i]@ < ids[j]@
}

/// `ids` lists, sorted and without duplicates, exactly the pane identifiers of `set`.
pub open spec fn lists_exactly(ids: Seq<PaneId>, set: Set<PaneId>) -> bool {
    sorted_unique(ids) && ids.to_set() == set
}

/// The pane identifiers of `ids` that the frame knows.
pub open spec fn known_ids(ids: Seq<PaneId>, layered: LayeredRenderFrame) -> Set<PaneId> {
    ids.to_set().filter(|id: PaneId| layered.knows(id))
}

/// Inserts `id` into a strictly increasing list, keeping it strictly increasing.
fn insert_sorted_unique(v: &mut Vec<PaneId>, id: PaneId)
    requires
        sorted_unique(old(v)@),
    ensures
        sorted_unique(final(v)@),
        final(v)@.to_set() == old(v)@.to_set().insert(id),
{
    let ghost before = v@;
    let n = v.len();
    let mut i: usize = 0;
    while i < n && v[i].raw() < id.raw()
        invariant
            n == v@.len(),
            v@ == before,
            sorted_unique(v@),
            i <= n,
            forall|j: int| 0 <= j < i ==> v@[j]@ < id@,
        decreases n - i,
    {
        i = i + 1;
    }
    if i < n && v[i].raw() == id.raw() {
        proof {
            PaneId::lemma_view_injective(v@[i as int], id);
            assert(before[i as int] == id);
            assert(before.contains(id));
            assert(before.to_set().insert(id) =~= before.to_set());
        }
        return;
    }
    v.insert(i, id);
    proof {
        let after = v@;
        assert(after =~= before.take(i as int).push(id) + before.skip(i as int));
        assert forall|a: int, b: int| 0 <= a < b < after.len() implies after[a]@ < after[b]@ by {
            if b < i {
            } else if b == i {
            } else if a < i {
                assert(after[b] == before[b - 1]);
            } else if a == i {
                assert(after[b] == before[b - 1]);
                assert(i < before.len() ==> id@ < before[i as int]@);
            } else {
                assert(after[a] == before[a - 1]);
                assert(after[b] == before[b - 1]);
            }
        }
        assert forall|x: PaneId| #[trigger] after.to_set().contains(x) <==> before.to_set().insert(id).contains(x) by {
            if after.contains(x) {
                let a = choose|a: int| 0 <= a < after.len() && after[a] == x;
                if a < i {
                    assert(before[a] == x);
                } else if a > i {
                    assert(before[a - 1] == x);
                }
            }
            if before.contains(x) {
                let a = choose|a: int| 0 <= a < before.len() && before[a] == x;
                if a < i {
                    assert(after[a] == x);
                } else {
                    assert(after[a + 1] == x);
                }
            }
            if x == id {
                assert(after[i as int] == id);
            }
        }
        assert(after.to_set() =~= before.to_set().insert(id));
    }
}

/// The pane identifiers of `pane_ids` that the frame knows, sorted by raw value and without
/// duplicates.
pub fn collect_known_pane_targets(pane_ids: &[PaneId], layered: &LayeredRenderFrame) -> (r: Vec<
    PaneId,
>)
    ensures
        lists_exactly(r@, known_ids(pane_ids@, *layered)),
{
    let mut r: Vec<PaneId> = Vec::new();
    let mut i: usize = 0;
    while i < pane_ids.len()
        invariant
            i <= pane_ids@.len(),
            sorted_unique(r@),
            r@.to_set() == known_ids(pane_ids@.take(i as int), *layered),
        decreases pane_ids@.len() - i,
    {
        let id = pane_ids[i];
        let ghost prefix = pane_ids@.take(i as int);
        let ghost next = pane_ids@.take(i + 1);
        proof {
            assert(next =~= prefix.push(id));
            prefix.lemma_push_to_set_commute(id);
        }
        if layered.has_pane(id) {
            insert_sorted_unique(&mut r, id);
            proof {
                assert(known_ids(next, *layered) =~= known_ids(prefix, *layered).insert(id));
            }
        } else {
            proof {
                assert(known_ids(next, *layered) =~= known_ids(prefix, *layered));
            }
        }
        i = i + 1;
    }
    proof {
        assert(pane_ids@.take(pane_ids@.len() as int) =~= pane_ids@);
    }
    r
}

/// Known targets of an explicit request: `None` when the request names no known pane.
pub fn resolve_api_pane_targets(api_pane_targets: &[PaneId], layered: &LayeredRenderFrame) -> (r:
    Option<Vec<PaneId>>)
    ensures
        r is None <==> known_ids(api_pane_targets@, *layered).is_empty(),
        r matches Some(v) ==> lists_exactly(v@, known_ids(api_pane_targets@, *layered)),
{
    if api_pane_targets.len() == 0 {
        proof {
            assert(api_pane_targets@.to_set() =~= Set::<PaneId>::empty());
            assert(known_ids(api_pane_targets@, *layered) =~= Set::<PaneId>::empty());
        }
        return None;
    }
    let targets = collect_known_pane_targets(api_pane_targets, layered);
    if targets.len() == 0 {
        proof {
            assert(targets@ =~= Seq::<PaneId>::empty());
            assert(targets@.to_set() =~= Set::<PaneId>::empty());
        }
        None
    } else {
        proof {
            assert(targets@.to_set().contains(targets@[0]));
        }
        Some(targets)
    }
}

/// Whether `ids` holds `pane_id`.
fn contains_pane(ids: &Vec<PaneId>, pane_id: PaneId) -> (r: bool)
    ensures
        r == ids@.contains(pane_id),
{
    let mut i: usize = 0;
    while i < ids.len()
        invariant
            i <= ids@.len(),
            forall|j: int| 0 <= j < i ==> ids@[j] != pane_id,
        decreases ids@.len() - i,
    {
        if ids[i] == pane_id {
            assert(ids@[i as int] == pane_id);
            return true;
        }
        i = i + 1;
    }
    false
}

/// The panes a partial redraw covers: all of them, or the listed ones.
#[derive(Debug, Clone)]
pub enum PartialPaneTargets {
    All,
    Selected(Vec<PaneId>),
}

impl PartialPaneTargets {
    /// Whether the redraw covers `pane_id`.
    pub open spec fn covers(&self, pane_id: PaneId) -> bool {
        match *self {
            PartialPaneTargets::All => true,
            PartialPaneTargets::Selected(v) => v@.contains(pane_id),
        }
    }

    /// The targets are all panes when `expected` is `None`, and exactly the panes of
    /// `expected`, sorted and without duplicates, otherwise.
    pub open spec fn matches_expected(&self, expected: Option<Set<PaneId>>) -> bool {
        match self {
            PartialPaneTargets::All => expected is None,
            PartialPaneTargets::Selected(v) => expected matches Some(set) && lists_exactly(v@, set),
        }
    }

    /// Whether the redraw covers `pane_id`.
    pub fn contains(&self, pane_id: PaneId) -> (r: bool)
        ensures
            r == self.covers(pane_id),
    {
        match self {
            PartialPaneTargets::All => true,
            PartialPaneTargets::Selected(targets) => contains_pane(targets, pane_id),
        }
    }
}


/// The expected targets of an explicit request: the known ones, or all panes when none of
/// the requested panes is known.
pub open spec fn api_or_all(api_pane_targets: Seq<PaneId>, layered: LayeredRenderFrame) -> Option<
    Set<PaneId>,
> {
    if known_ids(api_pane_targets, layered).is_empty() {
        None
    } else {
        Some(known_ids(api_pane_targets, layered))
    }
}

/// The known panes of an explicit request, or all panes when it names no known pane.
pub fn resolve_api_or_all_targets(api_pane_targets: &[PaneId], layered: &LayeredRenderFrame) -> (r:
    PartialPaneTargets)
    ensures
        r.matches_expected(api_or_all(api_pane_targets@, *layered)),
{
    match resolve_api_pane_targets(api_pane_targets, layered) {
        Some(targets) => PartialPaneTargets::Selected(targets),
        None => PartialPaneTargets::All,
    }
}

/// Model-reported pane targets when there are any, else the known panes of the explicit
/// request, else all panes.
pub fn resolve_lwc_explicit_or_api_or_all_targets(
    explicit_pane_targets: Option<Vec<PaneId>>,
    api_pane_targets: &[PaneId],
    layered: &LayeredRenderFrame,
) -> (r: PartialPaneTargets)
    ensures
        match explicit_pane_targets {
            Some(v) if v@.len() > 0 => r is Selected && (r matches PartialPaneTargets::Selected(w)
                && w@ == v@),
            _ => r.matches_expected(api_or_all(api_pane_targets@, *layered)),
        },
{
    match explicit_pane_targets {
        Some(explicit_targets) => {
            if explicit_targets.len() == 0 {
                resolve_api_or_all_targets(api_pane_targets, layered)
            } else {
                PartialPaneTargets::Selected(explicit_targets)
            }
        },
        None => resolve_api_or_all_targets(api_pane_targets, layered),
    }
}

/// Layers redrawn for a cursor-only change.
pub open spec fn cursor_only_layers() -> Seq<CanvasLayerKind> {
    seq![CanvasLayerKind::Background, CanvasLayerKind::Overlay, CanvasLayerKind::Crosshair]
}

/// Layers redrawn for a light change.
pub open spec fn light_layers() -> Seq<CanvasLayerKind> {
    seq![
        CanvasLayerKind::Background,
        CanvasLayerKind::Grid,
        CanvasLayerKind::Series,
        CanvasLayerKind::Overlay,
        CanvasLayerKind::Crosshair,
    ]
}

/// Layers redrawn for a cursor-only change: background, overlay, crosshair.
pub fn cursor_only_plot_layers() -> (r: Vec<CanvasLayerKind>)
    ensures
        r@ == cursor_only_layers(),
{
    let r = vec![CanvasLayerKind::Background, CanvasLayerKind::Overlay, CanvasLayerKind::Crosshair];
    assert(r@ =~= cursor_only_layers());
    r
}

/// Layers redrawn for a light change: background, grid, series, overlay, crosshair.
pub fn light_plot_layers() -> (r: Vec<CanvasLayerKind>)
    ensures
        r@ == light_layers(),
{
    let r = vec![
        CanvasLayerKind::Background,
        CanvasLayerKind::Grid,
        CanvasLayerKind::Series,
        CanvasLayerKind::Overlay,
        CanvasLayerKind::Crosshair,
    ];
    assert(r@ =~= light_layers());
    r
}

/// Plot layers redrawn for an axis-only change: none.
pub fn axis_only_plot_layers() -> (r: Vec<CanvasLayerKind>)
    ensures
        r@ == Seq::<CanvasLayerKind>::empty(),
{
    Vec::new()
}

/// The request is about the time scale.
pub open spec fn spec_has_time_scale_topic(pending: InvalidationMask) -> bool {
    pending.spec_topics().contains(InvalidationTopic::TimeScale)
}

/// The request has cursor level.
pub open spec fn spec_is_cursor_only(pending: InvalidationMask) -> bool {
    pending.spec_level() == InvalidationLevel::Cursor
}

/// None of the topics other than axis and cursor is requested.
pub open spec fn only_axis_or_cursor_topics(pending: InvalidationMask) -> bool {
    let t = pending.spec_topics();
    &&& !t.contains(InvalidationTopic::General)
    &&& !t.contains(InvalidationTopic::TimeScale)
    &&& !t.contains(InvalidationTopic::PriceScale)
    &&& !t.contains(InvalidationTopic::Series)
    &&& !t.contains(InvalidationTopic::PaneLayout)
    &&& !t.contains(InvalidationTopic::Style)
    &&& !t.contains(InvalidationTopic::Plugin)
}

/// The request is about the axis only.
pub open spec fn spec_is_axis_only(pending: InvalidationMask) -> bool {
    &&& pending.spec_topics().contains(InvalidationTopic::Axis)
    &&& !pending.spec_topics().contains(InvalidationTopic::Cursor)
    &&& only_axis_or_cursor_topics(pending)
}

/// The request is about the axis and the cursor only.
pub open spec fn spec_is_axis_cursor_only(pending: InvalidationMask) -> bool {
    &&& pending.spec_topics().contains(InvalidationTopic::Axis)
    &&& pending.spec_topics().contains(InvalidationTopic::Cursor)
    &&& only_axis_or_cursor_topics(pending)
}

/// The plot layers a pending request needs redrawn.
pub open spec fn plot_layers_for(pending: InvalidationMask) -> Seq<CanvasLayerKind> {
    if spec_is_cursor_only(pending) || spec_is_axis_cursor_only(pending) {
        cursor_only_layers()
    } else if spec_is_axis_only(pending) {
        Seq::empty()
    } else {
        light_layers()
    }
}

/// Whether the request is about the time scale.
pub fn pending_has_time_scale_topic(pending: InvalidationMask) -> (r: bool)
    ensures
        r == spec_has_time_scale_topic(pending),
{
    pending.has_topic(InvalidationTopic::TimeScale)
}

/// Whether the request has cursor level.
pub fn is_cursor_only_invalidation(pending: InvalidationMask) -> (r: bool)
    ensures
        r == spec_is_cursor_only(pending),
{
    pending.level() == InvalidationLevel::Cursor
}

fn has_only_axis_or_cursor_topics(pending: InvalidationMask) -> (r: bool)
    ensures
        r == only_axis_or_cursor_topics(pending),
{
    !pending.has_topic(InvalidationTopic::General) && !pending.has_topic(
        InvalidationTopic::TimeScale,
    ) && !pending.has_topic(InvalidationTopic::PriceScale) && !pending.has_topic(
        InvalidationTopic::Series,
    ) && !pending.has_topic(InvalidationTopic::PaneLayout) && !pending.has_topic(
        InvalidationTopic::Style,
    ) && !pending.has_topic(InvalidationTopic::Plugin)
}

/// Whether the request is about the axis only.
pub fn is_axis_only_invalidation(pending: InvalidationMask) -> (r: bool)
    ensures
        r == spec_is_axis_only(pending),
{
    pending.has_topic(InvalidationTopic::Axis) && !pending.has_topic(InvalidationTopic::Cursor)
        && has_only_axis_or_cursor_topics(pending)
}

/// Whether the request is about the axis and the cursor only.
pub fn is_axis_cursor_only_invalidation(pending: InvalidationMask) -> (r: bool)
    ensures
        r == spec_is_axis_cursor_only(pending),
{
    pending.has_topic(InvalidationTopic::Axis) && pending.has_topic(InvalidationTopic::Cursor)
        && has_only_axis_or_cursor_topics(pending)
}

/// The plot layers a pending request needs redrawn: cursor layers for cursor-level or
/// axis-and-cursor requests, no plot layer for axis-only requests, light layers otherwise.
pub fn select_plot_layers_for_pending(pending: InvalidationMask) -> (r: Vec<CanvasLayerKind>)
    ensures
        r@ == plot_layers_for(pending),
{
    if is_cursor_only_invalidation(pending) {
        return cursor_only_plot_layers();
    }
    if is_axis_cursor_only_invalidation(pending) {
        return cursor_only_plot_layers();
    }
    if is_axis_only_invalidation(pending) {
        return axis_only_plot_layers();
    }
    light_plot_layers()
}

/// The model's explicit pane requests ask for auto-scale somewhere.
pub open spec fn requests_auto_scale(m: InvalidateMask) -> bool {
    exists|k: usize| #[trigger] m.pane_map().contains_key(k) && m.pane_map()[k].auto_scale
}

/// The model request only moves the cursor: cursor level, no time-scale change, and every
/// explicit pane request is a cursor request without auto-scale.
pub open spec fn spec_is_cursor_only_lwc(m: InvalidateMask) -> bool {
    &&& m.global() == lwc::InvalidationLevel::Cursor
    &&& m.time_scale_list().len() == 0
    &&& forall|k: usize| #[trigger]
        m.pane_map().contains_key(k) ==> !m.pane_map()[k].auto_scale && m.pane_map()[k].level
            == lwc::InvalidationLevel::Cursor
}

/// A partial redraw may follow the model request: several panes, no time-scale topic in the
/// API request, a cursor or light model request, no pending time-scale change, and no pane
/// asking for auto-scale.
pub open spec fn lwc_partial_allowed(
    api_pending: InvalidationMask,
    m: InvalidateMask,
    layered: LayeredRenderFrame,
) -> bool {
    &&& layered.panes@.len() > 1
    &&& !spec_has_time_scale_topic(api_pending)
    &&& (m.global() == lwc::InvalidationLevel::Cursor || m.global()
        == lwc::InvalidationLevel::Light)
    &&& m.time_scale_list().len() == 0
    &&& !requests_auto_scale(m)
}

/// The panes that the model's explicit requests name, through `lwc_pane_ids`, and that the
/// frame knows.
pub open spec fn lwc_explicit_known(
    m: InvalidateMask,
    lwc_pane_ids: Seq<PaneId>,
    layered: LayeredRenderFrame,
) -> Set<PaneId> {
    Set::new(
        |id: PaneId|
            layered.knows(id) && exists|k: usize| #[trigger]
                m.pane_map().contains_key(k) && k < lwc_pane_ids.len() && lwc_pane_ids[k as int]
                    == id,
    )
}

/// Whether the model request only moves the cursor.
pub fn is_cursor_only_lwc_invalidation(pending: &InvalidateMask) -> (r: bool)
    ensures
        r == spec_is_cursor_only_lwc(*pending),
{
    if pending.full_invalidation() != lwc::InvalidationLevel::Cursor {
        return false;
    }
    if pending.time_scale_invalidations().len() != 0 {
        return false;
    }
    let explicit = pending.explicit_pane_invalidations();
    let mut i: usize = 0;
    while i < explicit.len()
        invariant
            i <= explicit@.len(),
            forall|j: int|
                0 <= j < i ==> !(#[trigger] explicit@[j]).1.auto_scale && explicit@[j].1.level
                    == lwc::InvalidationLevel::Cursor,
            forall|j: int|
                0 <= j < explicit@.len() ==> pending.pane_map().contains_key(
                    #[trigger] explicit@[j].0,
                ) && pending.pane_map()[explicit@[j].0] == explicit@[j].1,
        decreases explicit@.len() - i,
    {
        let (_, invalidation) = explicit[i];
        if invalidation.auto_scale || invalidation.level != lwc::InvalidationLevel::Cursor {
            assert(pending.pane_map().contains_key(explicit@[i as int].0));
            return false;
        }
        i = i + 1;
    }
    proof {
        assert forall|k: usize| #[trigger] pending.pane_map().contains_key(k) implies !pending.pane_map()[k].auto_scale
            && pending.pane_map()[k].level == lwc::InvalidationLevel::Cursor by {
            let j = choose|j: int| 0 <= j < explicit@.len() && explicit@[j].0 == k;
        }
    }
    true
}

/// Whether some explicit pane request of the model asks for auto-scale.
fn lwc_requests_auto_scale(pending: &InvalidateMask) -> (r: bool)
    ensures
        r == requests_auto_scale(*pending),
{
    let explicit = pending.explicit_pane_invalidations();
    let mut i: usize = 0;
    while i < explicit.len()
        invariant
            i <= explicit@.len(),
            forall|j: int| 0 <= j < i ==> !(#[trigger] explicit@[j]).1.auto_scale,
            forall|j: int|
                0 <= j < explicit@.len() ==> pending.pane_map().contains_key(
                    #[trigger] explicit@[j].0,
                ) && pending.pane_map()[explicit@[j].0] == explicit@[j].1,
        decreases explicit@.len() - i,
    {
        let (_, invalidation) = explicit[i];
        if invalidation.auto_scale {
            assert(pending.pane_map().contains_key(explicit@[i as int].0));
            return true;
        }
        i = i + 1;
    }
    proof {
        assert forall|k: usize| #[trigger] pending.pane_map().contains_key(k) implies !pending.pane_map()[k].auto_scale by {
            let j = choose|j: int| 0 <= j < explicit@.len() && explicit@[j].0 == k;
        }
    }
    false
}

/// The known panes named by the model's explicit requests, sorted and without duplicates.
fn collect_lwc_explicit_targets(
    pending: &InvalidateMask,
    lwc_pane_ids: &[PaneId],
    layered: &LayeredRenderFrame,
) -> (r: Vec<PaneId>)
    ensures
        lists_exactly(r@, lwc_explicit_known(*pending, lwc_pane_ids@, *layered)),
{
    let explicit = pending.explicit_pane_invalidations();
    let mut named: Vec<PaneId> = Vec::new();
    let mut i: usize = 0;
    while i < explicit.len()
        invariant
            i <= explicit@.len(),
            forall|id: PaneId|
                named@.contains(id) <==> exists|j: int|
                    0 <= j < i && (#[trigger] explicit@[j]).0 < lwc_pane_ids@.len()
                        && lwc_pane_ids@[explicit@[j].0 as int] == id,
        decreases explicit@.len() - i,
    {
        let (index, _) = explicit[i];
        let ghost before = named@;
        if index < lwc_pane_ids.len() {
            named.push(lwc_pane_ids[index]);
            proof {
                assert forall|id: PaneId|
                    named@.contains(id) <==> exists|j: int|
                        0 <= j < i + 1 && (#[trigger] explicit@[j]).0 < lwc_pane_ids@.len()
                            && lwc_pane_ids@[explicit@[j].0 as int] == id by {
                    if named@.contains(id) {
                        let a = choose|a: int| 0 <= a < named@.len() && named@[a] == id;
                        if a < before.len() {
                            assert(before[a] == id);
                            assert(before.contains(id));
                        } else {
                            assert(explicit@[i as int].0 < lwc_pane_ids@.len());
                        }
                    }
                    if exists|j: int|
                        0 <= j < i + 1 && (#[trigger] explicit@[j]).0 < lwc_pane_ids@.len()
                            && lwc_pane_ids@[explicit@[j].0 as int] == id {
                        let j = choose|j: int|
                            0 <= j < i + 1 && (#[trigger] explicit@[j]).0 < lwc_pane_ids@.len()
                                && lwc_pane_ids@[explicit@[j].0 as int] == id;
                        if j < i {
                            assert(before.contains(id));
                            let a = choose|a: int| 0 <= a < before.len() && before[a] == id;
                            assert(named@[a] == id);
                        } else {
                            assert(named@[named@.len() - 1] == id);
                        }
                    }
                }
            }
        } else {
            proof {
                assert forall|id: PaneId|
                    named@.contains(id) <==> exists|j: int|
                        0 <= j < i + 1 && (#[trigger] explicit@[j]).0 < lwc_pane_ids@.len()
                            && lwc_pane_ids@[explicit@[j].0 as int] == id by {
                    if exists|j: int|
                        0 <= j < i + 1 && (#[trigger] explicit@[j]).0 < lwc_pane_ids@.len()
                            && lwc_pane_ids@[explicit@[j].0 as int] == id {
                        let j = choose|j: int|
                            0 <= j < i + 1 && (#[trigger] explicit@[j]).0 < lwc_pane_ids@.len()
                                && lwc_pane_ids@[explicit@[j].0 as int] == id;
                        assert(j < i);
                    }
                }
            }
        }
        i = i + 1;
    }
    let r = collect_known_pane_targets(named.as_slice(), layered);
    proof {
        let target = lwc_explicit_known(*pending, lwc_pane_ids@, *layered);
        assert forall|id: PaneId| #[trigger] known_ids(named@, *layered).contains(id) <==> target.contains(id) by {
            if known_ids(named@, *layered).contains(id) {
                assert(named@.contains(id));
                let j = choose|j: int|
                    0 <= j < explicit@.len() && (#[trigger] explicit@[j]).0 < lwc_pane_ids@.len()
                        && lwc_pane_ids@[explicit@[j].0 as int] == id;
                assert(pending.pane_map().contains_key(explicit@[j].0));
            }
            if target.contains(id) {
                let k = choose|k: usize| #[trigger]
                    pending.pane_map().contains_key(k) && k < lwc_pane_ids@.len()
                        && lwc_pane_ids@[k as int] == id;
                let j = choose|j: int| 0 <= j < explicit@.len() && explicit@[j].0 == k;
                assert(named@.contains(id));
            }
        }
        assert(known_ids(named@, *layered) =~= target);
    }
    r
}

/// How a partial redraw follows a model request.
#[derive(Debug, Clone)]
pub struct LwcPartialRenderPolicy {
    /// The known panes the model named explicitly, or `None` when it named none.
    pub explicit_pane_targets: Option<Vec<PaneId>>,
    /// The model request only moves the cursor.
    pub cursor_only: bool,
}

/// Decides whether a model request can be served by a partial redraw, and how.
pub fn resolve_lwc_partial_render_policy(
    api_pending: InvalidationMask,
    lwc_pending: &InvalidateMask,
    lwc_pane_ids: &[PaneId],
    layered: &LayeredRenderFrame,
) -> (r: Option<LwcPartialRenderPolicy>)
    ensures
        r is None <==> !lwc_partial_allowed(api_pending, *lwc_pending, *layered),
        r matches Some(policy) ==> {
            &&& policy.cursor_only == spec_is_cursor_only_lwc(*lwc_pending)
            &&& (policy.explicit_pane_targets is None <==> lwc_pending.pane_map().dom().is_empty())
            &&& policy.explicit_pane_targets matches Some(v) ==> lists_exactly(
                v@,
                lwc_explicit_known(*lwc_pending, lwc_pane_ids@, *layered),
            )
        },
{
    if layered.panes.len() <= 1 {
        return None;
    }
    if pending_has_time_scale_topic(api_pending) {
        return None;
    }
    let level = lwc_pending.full_invalidation();
    if !(level == lwc::InvalidationLevel::Cursor || level == lwc::InvalidationLevel::Light) {
        return None;
    }
    if lwc_pending.time_scale_invalidations().len() != 0 {
        return None;
    }
    if lwc_requests_auto_scale(lwc_pending) {
        return None;
    }
    let explicit = lwc_pending.explicit_pane_invalidations();
    let explicit_pane_targets = if explicit.len() == 0 {
        proof {
            if !lwc_pending.pane_map().dom().is_empty() {
                let k = lwc_pending.pane_map().dom().choose();
                assert(lwc_pending.pane_map().contains_key(k));
            }
        }
        None
    } else {
        proof {
            assert(lwc_pending.pane_map().contains_key(explicit@[0].0));
        }
        Some(collect_lwc_explicit_targets(lwc_pending, lwc_pane_ids, layered))
    };
    Some(
        LwcPartialRenderPolicy {
            explicit_pane_targets,
            cursor_only: is_cursor_only_lwc_invalidation(lwc_pending),
        },
    )
}

/// A plan for redrawing some layers of some panes.
#[derive(Debug, Clone)]
pub struct PartialCairoRenderPlan {
    plot_layers: Vec<CanvasLayerKind>,
    pane_targets: PartialPaneTargets,
}

/// The plot layers a planned partial redraw uses for a model request.
pub open spec fn lwc_plot_layers(m: InvalidateMask) -> Seq<CanvasLayerKind> {
    if spec_is_cursor_only_lwc(m) {
        cursor_only_layers()
    } else {
        light_layers()
    }
}

/// What `PartialCairoRenderPlan::build` returns for an API request.
pub open spec fn is_api_plan(
    r: Option<PartialCairoRenderPlan>,
    pending: InvalidationMask,
    api_pane_targets: Seq<PaneId>,
    layered: LayeredRenderFrame,
) -> bool {
    &&& r is None <==> (layered.panes@.len() <= 1 || !(pending.spec_level()
        == InvalidationLevel::Cursor || pending.spec_level() == InvalidationLevel::Light))
    &&& r matches Some(plan) ==> {
        &&& plan.spec_plot_layers() == if spec_is_cursor_only(pending) {
            cursor_only_layers()
        } else {
            light_layers()
        }
        &&& plan.spec_pane_targets().matches_expected(api_or_all(api_pane_targets, layered))
    }
}

/// What `PartialCairoRenderPlan::build_from_lwc` returns for a model request `m`.
pub open spec fn is_lwc_plan(
    r: Option<PartialCairoRenderPlan>,
    api_pending: InvalidationMask,
    api_pane_targets: Seq<PaneId>,
    m: InvalidateMask,
    lwc_pane_ids: Seq<PaneId>,
    layered: LayeredRenderFrame,
) -> bool {
    &&& r is None <==> (!lwc_partial_allowed(api_pending, m, layered) || (
    !m.pane_map().dom().is_empty() && lwc_explicit_known(m, lwc_pane_ids, layered).is_empty()))
    &&& r matches Some(plan) ==> {
        &&& plan.spec_plot_layers() == lwc_plot_layers(m)
        &&& plan.spec_pane_targets().matches_expected(
            if m.pane_map().dom().is_empty() {
                api_or_all(api_pane_targets, layered)
            } else {
                Some(lwc_explicit_known(m, lwc_pane_ids, layered))
            },
        )
    }
}

impl PartialCairoRenderPlan {
    /// The plot layers to redraw.
    pub closed spec fn spec_plot_layers(&self) -> Seq<CanvasLayerKind> {
        self.plot_layers@
    }

    /// The panes to redraw.
    pub closed spec fn spec_pane_targets(&self) -> PartialPaneTargets {
        self.pane_targets
    }

    /// A plan redrawing `plot_layers` of `pane_targets`.
    pub fn new(plot_layers: Vec<CanvasLayerKind>, pane_targets: PartialPaneTargets) -> (p:
        PartialCairoRenderPlan)
        ensures
            p.spec_plot_layers() == plot_layers@,
            p.spec_pane_targets() == pane_targets,
    {
        PartialCairoRenderPlan { plot_layers, pane_targets }
    }

    /// The plot layers to redraw.
    pub fn plot_layers(&self) -> (r: &[CanvasLayerKind])
        ensures
            r@ == self.spec_plot_layers(),
    {
        self.plot_layers.as_slice()
    }

    /// Whether the plan redraws `pane_id`.
    pub fn targets_pane(&self, pane_id: PaneId) -> (r: bool)
        ensures
            r == self.spec_pane_targets().covers(pane_id),
    {
        self.pane_targets.contains(pane_id)
    }

    /// Whether the request has cursor level.
    pub fn is_cursor_only_invalidation(pending: InvalidationMask) -> (r: bool)
        ensures
            r == spec_is_cursor_only(pending),
    {
        is_cursor_only_invalidation(pending)
    }

    /// Whether the model request only moves the cursor.
    pub fn is_cursor_only_lwc_invalidation(pending: &InvalidateMask) -> (r: bool)
        ensures
            r == spec_is_cursor_only_lwc(*pending),
    {
        is_cursor_only_lwc_invalidation(pending)
    }

    /// Plans a partial redraw for an API request: only with several panes and a cursor or
    /// light request; cursor layers for a cursor request, light layers otherwise; the known
    /// requested panes, or all panes.
    pub fn build(
        pending: InvalidationMask,
        api_pane_targets: &[PaneId],
        layered: &LayeredRenderFrame,
    ) -> (r: Option<PartialCairoRenderPlan>)
        ensures
            is_api_plan(r, pending, api_pane_targets@, *layered),
    {
        let level = pending.level();
        if layered.panes.len() <= 1 || !(level == InvalidationLevel::Cursor || level
            == InvalidationLevel::Light) {
            return None;
        }
        let pane_targets = resolve_api_or_all_targets(api_pane_targets, layered);
        let plot_layers = if Self::is_cursor_only_invalidation(pending) {
            cursor_only_plot_layers()
        } else {
            light_plot_layers()
        };
        Some(PartialCairoRenderPlan { plot_layers, pane_targets })
    }

    /// Plans a partial redraw for a model request: only when the model request allows one;
    /// the known panes the model named, or when it named none the known requested panes or
    /// all panes; no plan when the model named panes but none of them is known.
    pub fn build_from_lwc(
        api_pending: InvalidationMask,
        api_pane_targets: &[PaneId],
        lwc_pending: Option<&InvalidateMask>,
        lwc_pane_ids: &[PaneId],
        layered: &LayeredRenderFrame,
    ) -> (r: Option<PartialCairoRenderPlan>)
        ensures
            lwc_pending is None ==> r is None,
            lwc_pending matches Some(m) ==> is_lwc_plan(
                r,
                api_pending,
                api_pane_targets@,
                *m,
                lwc_pane_ids@,
                *layered,
            ),
    {
        let pending = match lwc_pending {
            Some(m) => m,
            None => return None,
        };
        let policy = match resolve_lwc_partial_render_policy(
            api_pending,
            pending,
            lwc_pane_ids,
            layered,
        ) {
            Some(p) => p,
            None => return None,
        };
        let pane_targets = match policy.explicit_pane_targets {
            None => resolve_api_or_all_targets(api_pane_targets, layered),
            Some(targets) => {
                if targets.len() == 0 {
                    proof {
                        assert(targets@ =~= Seq::<PaneId>::empty());
                        assert(targets@.to_set() =~= Set::<PaneId>::empty());
                    }
                    return None;
                }
                proof {
                    assert(targets@.to_set().contains(targets@[0]));
                }
                PartialPaneTargets::Selected(targets)
            },
        };
        let plot_layers = if policy.cursor_only {
            cursor_only_plot_layers()
        } else {
            light_plot_layers()
        };
        Some(PartialCairoRenderPlan { plot_layers, pane_targets })
    }

    /// Plans a partial redraw from the model request when there is one, else from the API
    /// request.
    pub fn build_from_masks(
        pending: InvalidationMask,
        api_pane_targets: &[PaneId],
        lwc_pending: Option<&InvalidateMask>,
        lwc_pane_ids: &[PaneId],
        layered: &LayeredRenderFrame,
    ) -> (r: Option<PartialCairoRenderPlan>)
        ensures
            lwc_pending matches Some(m) ==> is_lwc_plan(
                r,
                pending,
                api_pane_targets@,
                *m,
                lwc_pane_ids@,
                *layered,
            ),
            lwc_pending is None ==> is_api_plan(r, pending, api_pane_targets@, *layered),
    {
        if lwc_pending.is_some() {
            return Self::build_from_lwc(
                pending,
                api_pane_targets,
                lwc_pending,
                lwc_pane_ids,
                layered,
            );
        }
        Self::build(pending, api_pane_targets, layered)
    }
}


/// A light request that names any topic besides the axis and the cursor (general, time scale,
/// price scale, series, pane layout, style or plugin) repaints the light plot layers: series
/// drawn at an old scale or style are never left on screen.
pub proof fn lemma_non_axis_topics_repaint_light_layers(pending: InvalidationMask)
    requires
        pending.spec_level() != InvalidationLevel::Cursor,
        pending.spec_topics().contains(InvalidationTopic::General) || pending.spec_topics().contains(
            InvalidationTopic::TimeScale,
        ) || pending.spec_topics().contains(InvalidationTopic::PriceScale)
            || pending.spec_topics().contains(InvalidationTopic::Series)
            || pending.spec_topics().contains(InvalidationTopic::PaneLayout)
            || pending.spec_topics().contains(InvalidationTopic::Style)
            || pending.spec_topics().contains(InvalidationTopic::Plugin),
    ensures
        plot_layers_for(pending) == light_layers(),
        plot_layers_for(pending).contains(CanvasLayerKind::Series),
{
    assert(light_layers()[2] == CanvasLayerKind::Series);
}

} // verus!
