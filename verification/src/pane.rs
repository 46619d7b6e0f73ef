use vstd::prelude::*;

use crate::error::{invalid_data, is_invalid_data, ChartResult};
use crate::float_bits::{bits_finite_positive, finite_positive, F64Bits};

verus! {

/// Stable identifier of a chart pane.
#[derive(Debug, Clone, Copy, PartialEq, Eq, Hash, Structural)]
pub struct PaneId(u32);

impl View for PaneId {
    type V = u32;

    closed spec fn view(&self) -> u32 {
        self.0
    }
}

impl PaneId {
    /// Wraps a raw pane identifier.
    pub fn new(raw: u32) -> (id: PaneId)
        ensures
            id@ == raw,
    {
        PaneId(raw)
    }

    /// Returns the raw identifier.
    pub fn raw(self) -> (r: u32)
        ensures
            r == self@,
    {
        self.0
    }

    /// Two identifiers are equal exactly when their raw values are.
    pub proof fn lemma_view_injective(a: PaneId, b: PaneId)
        ensures
            a@ == b@ <==> a == b,
    {
    }
}


/// A pane and its share of the plot height.
#[derive(Debug, Clone, Copy, PartialEq, Eq, Structural)]
pub struct PaneDescriptor {
    pub id: PaneId,
    pub is_main: bool,
    /// Relative weight of the pane's height (encoded `f64`).
    pub stretch_factor: F64Bits,
}

/// `1.0` as an encoded `f64`.
pub const DEFAULT_STRETCH_FACTOR: F64Bits = 0x3ff0_0000_0000_0000;

/// The main pane as created: identifier 0, weight 1.
pub open spec fn is_initial_main_pane(p: PaneDescriptor) -> bool {
    p.id@ == 0 && p.is_main && p.stretch_factor == DEFAULT_STRETCH_FACTOR
}

/// The ordered panes of a chart, the first of which is the main pane.
#[derive(Debug, Clone, PartialEq, Eq)]
pub struct PaneCollection {
    panes: Vec<PaneDescriptor>,
    next_id: u32,
}

/// The text of the error for a stretch factor that is not finite and positive.
pub open spec fn stretch_factor_error() -> Seq<char> {
    "pane stretch factor must be finite and > 0"@
}

/// Checks that a stretch factor is finite and positive.
pub fn validate_stretch_factor(stretch_factor: F64Bits) -> (r: ChartResult<()>)
    ensures
        r is Ok <==> finite_positive(stretch_factor),
        !finite_positive(stretch_factor) ==> is_invalid_data(r, stretch_factor_error()),
{
    if !bits_finite_positive(stretch_factor) {
        return Err(invalid_data("pane stretch factor must be finite and > 0"));
    }
    Ok(())
}

impl Default for PaneCollection {
    /// One main pane with identifier 0 and weight 1.
    fn default() -> (r: PaneCollection)
        ensures
            r.wf(),
            r.spec_panes().len() == 1,
            is_initial_main_pane(r.spec_panes()[0]),
            r.spec_next_id() == 1,
    {
        let mut panes: Vec<PaneDescriptor> = Vec::new();
        panes.push(
            PaneDescriptor { id: PaneId(0), is_main: true, stretch_factor: DEFAULT_STRETCH_FACTOR },
        );
        PaneCollection { panes, next_id: 1 }
    }
}

/// Removing the pane that was just created gives back the panes as they were.
pub proof fn lemma_remove_created_pane_restores(c: PaneCollection, created: PaneDescriptor)
    requires
        c.wf(),
        c.spec_next_id() < u32::MAX,
        created.id@ == c.spec_next_id(),
    ensures
        forall|i: int|
            0 <= i < c.spec_panes().len() + 1 && (#[trigger] c.spec_panes().push(created)[i]).id
                == created.id && (forall|j: int|
                0 <= j < i ==> c.spec_panes().push(created)[j].id != created.id) ==> c.spec_panes().push(
                created,
            ).remove(i) == c.spec_panes(),
{
    let panes = c.spec_panes();
    assert forall|i: int|
        0 <= i < panes.len() + 1 && (#[trigger] panes.push(created)[i]).id == created.id && (forall|j: int|
            0 <= j < i ==> panes.push(created)[j].id != created.id) implies panes.push(created).remove(
        i,
    ) == panes by {
        if i < panes.len() {
            assert(panes.push(created)[i] == panes[i]);
            PaneId::lemma_view_injective(panes[i].id, created.id);
        }
        assert(panes.push(created).remove(i) =~= panes);
    }
}

/// While identifiers are unique, a removed pane is no longer in the collection.
pub proof fn lemma_removed_pane_is_gone(c: PaneCollection, id: PaneId, i: int)
    requires
        c.wf(),
        c.spec_next_id() < u32::MAX,
        0 <= i < c.spec_panes().len(),
        c.spec_panes()[i].id == id,
    ensures
        !c.spec_panes().remove(i).contains(c.spec_panes()[i]),
        forall|k: int| 0 <= k < c.spec_panes().len() - 1 ==> (#[trigger] c.spec_panes().remove(i)[k]).id != id,
{
    let panes = c.spec_panes();
    assert forall|k: int| 0 <= k < panes.len() - 1 implies (#[trigger] panes.remove(i)[k]).id != id by {
        let bk = if k < i { k } else { k + 1 };
        assert(panes.remove(i)[k] == panes[bk]);
        if bk < i {
            assert(panes[bk].id != panes[i].id);
        } else {
            assert(panes[i].id != panes[bk].id);
        }
    }
    if panes.remove(i).contains(panes[i]) {
        let k = choose|k: int| 0 <= k < panes.remove(i).len() && panes.remove(i)[k] == panes[i];
        assert(panes.remove(i)[k].id != id);
    }
}

impl PaneCollection {
    /// The panes in order.
    pub closed spec fn spec_panes(&self) -> Seq<PaneDescriptor> {
        self.panes@
    }

    /// The identifier the next created pane receives.
    pub closed spec fn spec_next_id(&self) -> u32 {
        self.next_id
    }

    /// The identifiers of the panes, in order.
    pub open spec fn pane_ids(&self) -> Seq<u32> {
        self.spec_panes().map_values(|p: PaneDescriptor| p.id@)
    }

    /// Some pane has the identifier.
    pub open spec fn spec_contains(&self, id: PaneId) -> bool {
        exists|i: int| 0 <= i < self.spec_panes().len() && #[trigger] self.spec_panes()[i].id == id
    }

    /// The first pane is the main pane with identifier 0, no other pane is main, and until the
    /// identifier counter saturates every identifier is below it and none occurs twice.
    pub open spec fn wf(&self) -> bool {
        let panes = self.spec_panes();
        &&& panes.len() >= 1
        &&& panes[0].is_main
        &&& panes[0].id@ == 0
        &&& forall|i: int| 0 < i < panes.len() ==> !(#[trigger] panes[i]).is_main
        &&& self.spec_next_id() < u32::MAX ==> {
            &&& forall|i: int| 0 <= i < panes.len() ==> (#[trigger] panes[i]).id@ < self.spec_next_id()
            &&& forall|i: int, j: int|
                0 <= i < j < panes.len() ==> (#[trigger] panes[i]).id != (#[trigger] panes[j]).id
        }
    }

    /// The panes in order.
    pub fn panes(&self) -> (r: &[PaneDescriptor])
        ensures
            r@ == self.spec_panes(),
    {
        self.panes.as_slice()
    }

    /// The identifier of the main pane.
    pub fn main_pane_id(&self) -> (r: PaneId)
        requires
            self.wf(),
        ensures
            r@ == 0,
            r == self.spec_panes()[0].id,
    {
        let mut i: usize = 0;
        while i < self.panes.len()
            invariant
                self.wf(),
                0 <= i <= self.panes@.len(),
                i > 0 ==> !self.panes@[0].is_main,
            decreases self.panes@.len() - i,
        {
            if self.panes[i].is_main {
                return self.panes[i].id;
            }
            i += 1;
        }
        PaneId(0)
    }

    /// Some pane has the identifier.
    pub fn contains(&self, pane_id: PaneId) -> (r: bool)
        ensures
            r == self.spec_contains(pane_id),
    {
        self.position_of(pane_id).is_some()
    }

    /// The index of the first pane with the identifier.
    fn position_of(&self, pane_id: PaneId) -> (r: Option<usize>)
        ensures
            r matches Some(i) ==> i < self.spec_panes().len() && self.spec_panes()[i as int].id
                == pane_id && forall|j: int| 0 <= j < i ==> self.spec_panes()[j].id != pane_id,
            r is None ==> !self.spec_contains(pane_id),
    {
        let mut i: usize = 0;
        while i < self.panes.len()
            invariant
                0 <= i <= self.panes@.len(),
                forall|j: int| 0 <= j < i ==> self.panes@[j].id != pane_id,
            decreases self.panes@.len() - i,
        {
            if self.panes[i].id == pane_id {
                return Some(i);
            }
            i += 1;
        }
        None
    }

    /// Appends a pane with the given weight and returns its identifier.
    pub fn create_pane(&mut self, stretch_factor: F64Bits) -> (r: ChartResult<PaneId>)
        requires
            old(self).wf(),
        ensures
            final(self).wf(),
            r is Ok <==> finite_positive(stretch_factor),
            !finite_positive(stretch_factor) ==> is_invalid_data(r, stretch_factor_error())
                && *final(self) == *old(self),
            r matches Ok(id) ==> {
                &&& id@ == old(self).spec_next_id()
                &&& final(self).spec_panes() == old(self).spec_panes().push(
                    PaneDescriptor { id, is_main: false, stretch_factor },
                )
                &&& final(self).spec_next_id() == if old(self).spec_next_id() == u32::MAX {
                    u32::MAX
                } else {
                    (old(self).spec_next_id() + 1) as u32
                }
            },
    {
        if let Err(e) = validate_stretch_factor(stretch_factor) {
            return Err(e);
        }
        let pane_id = PaneId(self.next_id);
        self.next_id = self.next_id.saturating_add(1);
        self.panes.push(PaneDescriptor { id: pane_id, is_main: false, stretch_factor });
        Ok(pane_id)
    }

    /// Removes the first pane with the identifier; the main pane cannot be removed.
    ///
    /// Returns whether a pane was removed.
    pub fn remove_pane(&mut self, pane_id: PaneId) -> (r: ChartResult<bool>)
        requires
            old(self).wf(),
        ensures
            final(self).wf(),
            pane_id@ == 0 ==> is_invalid_data(r, "cannot remove main pane"@) && *final(self)
                == *old(self),
            pane_id@ != 0 ==> r == Ok::<bool, crate::error::ChartError>(
                old(self).spec_contains(pane_id),
            ),
            pane_id@ != 0 && !old(self).spec_contains(pane_id) ==> *final(self) == *old(self),
            pane_id@ != 0 && old(self).spec_contains(pane_id) ==> exists|i: int|
                0 < i < old(self).spec_panes().len() && old(self).spec_panes()[i].id == pane_id
                    && (forall|j: int| 0 <= j < i ==> old(self).spec_panes()[j].id != pane_id)
                    && final(self).spec_panes() == old(self).spec_panes().remove(i)
                    && final(self).spec_next_id() == old(self).spec_next_id(),
    {
        if pane_id == self.main_pane_id() {
            return Err(invalid_data("cannot remove main pane"));
        }
        let index = match self.position_of(pane_id) {
            Some(index) => index,
            None => return Ok(false),
        };
        let ghost before = self.panes@;
        self.panes.remove(index);
        proof {
            assert(index > 0);
            assert forall|i: int| 0 < i < self.panes@.len() implies !(#[trigger] self.panes@[i]).is_main by {
                let bi = if i < index { i } else { i + 1 };
                assert(self.panes@[i] == before[bi]);
            }
            if self.next_id < u32::MAX {
                assert forall|i: int, j: int|
                    0 <= i < j < self.panes@.len() implies (#[trigger] self.panes@[i]).id != (#[trigger] self.panes@[j]).id by {
                    let bi = if i < index { i } else { i + 1 };
                    let bj = if j < index { j } else { j + 1 };
                    assert(self.panes@[i] == before[bi]);
                    assert(self.panes@[j] == before[bj]);
                }
                assert forall|i: int| 0 <= i < self.panes@.len() implies (#[trigger] self.panes@[i]).id@ < self.next_id by {
                    let bi = if i < index { i } else { i + 1 };
                    assert(self.panes@[i] == before[bi]);
                }
            }
        }
        if self.panes.len() == 0 {
            self.panes.push(
                PaneDescriptor { id: PaneId(0), is_main: true, stretch_factor: DEFAULT_STRETCH_FACTOR },
            );
            if self.next_id < 1 {
                self.next_id = 1;
            }
        }
        Ok(true)
    }

    /// Sets the weight of the first pane with the identifier.
    ///
    /// Returns whether such a pane exists.
    pub fn set_stretch_factor(&mut self, pane_id: PaneId, stretch_factor: F64Bits) -> (r: ChartResult<bool>)
        requires
            old(self).wf(),
        ensures
            final(self).wf(),
            !finite_positive(stretch_factor) ==> is_invalid_data(r, stretch_factor_error())
                && *final(self) == *old(self),
            finite_positive(stretch_factor) ==> r == Ok::<bool, crate::error::ChartError>(
                old(self).spec_contains(pane_id),
            ),
            final(self).spec_next_id() == old(self).spec_next_id(),
            final(self).spec_panes().len() == old(self).spec_panes().len(),
            forall|i: int|
                0 <= i < old(self).spec_panes().len() ==> {
                    let before = old(self).spec_panes()[i];
                    let after = #[trigger] final(self).spec_panes()[i];
                    &&& after.id == before.id
                    &&& after.is_main == before.is_main
                    &&& after.stretch_factor == if finite_positive(stretch_factor) && before.id
                        == pane_id && forall|j: int|
                        0 <= j < i ==> old(self).spec_panes()[j].id != pane_id {
                        stretch_factor
                    } else {
                        before.stretch_factor
                    }
                },
    {
        if let Err(e) = validate_stretch_factor(stretch_factor) {
            return Err(e);
        }
        let index = match self.position_of(pane_id) {
            Some(index) => index,
            None => return Ok(false),
        };
        let mut pane = self.panes[index];
        pane.stretch_factor = stretch_factor;
        self.panes.set(index, pane);
        Ok(true)
    }

    /// Replaces the weight of every pane, in order; identifiers and the main flag are kept.
    pub fn replace_stretch_factors(&mut self, factors: &[F64Bits])
        requires
            old(self).wf(),
            factors@.len() == old(self).spec_panes().len(),
        ensures
            final(self).wf(),
            final(self).spec_next_id() == old(self).spec_next_id(),
            final(self).spec_panes().len() == old(self).spec_panes().len(),
            forall|i: int|
                0 <= i < old(self).spec_panes().len() ==> #[trigger] final(self).spec_panes()[i] == (
                PaneDescriptor { stretch_factor: factors@[i], ..old(self).spec_panes()[i] }),
    {
        let mut i: usize = 0;
        while i < factors.len()
            invariant
                factors@.len() == old(self).spec_panes().len(),
                self.panes@.len() == old(self).spec_panes().len(),
                self.next_id == old(self).spec_next_id(),
                0 <= i <= factors@.len(),
                forall|j: int|
                    0 <= j < i ==> #[trigger] self.panes@[j] == (PaneDescriptor {
                        stretch_factor: factors@[j],
                        ..old(self).spec_panes()[j]
                    }),
                forall|j: int| i <= j < self.panes@.len() ==> #[trigger] self.panes@[j] == old(self).spec_panes()[j],
            decreases factors@.len() - i,
        {
            let mut pane = self.panes[i];
            pane.stretch_factor = factors[i];
            self.panes.set(i, pane);
            i += 1;
        }
    }
}

} // verus!
