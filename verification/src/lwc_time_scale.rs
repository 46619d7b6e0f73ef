use vstd::prelude::*;

use crate::float_bits::F64Bits;

verus! {

/// Index of a time point on the logical time axis.
pub type TimePointIndex = i64;

/// A logical range on the time axis; the bounds are encoded `f64` values.
#[derive(Debug, Clone, Copy, PartialEq, Eq, Structural)]
pub struct LogicalRange {
    pub from: F64Bits,
    pub to: F64Bits,
}

impl LogicalRange {
    /// The left bound.
    pub fn left(self) -> (r: F64Bits)
        ensures
            r == self.from,
    {
        self.from
    }

    /// The right bound.
    pub fn right(self) -> (r: F64Bits)
        ensures
            r == self.to,
    {
        self.to
    }
}

/// An inclusive range of time point indices `[left, right]`.
#[derive(Debug, Clone, Copy, PartialEq, Eq, Structural)]
pub struct StrictRange {
    left: TimePointIndex,
    right: TimePointIndex,
}

impl StrictRange {
    /// The left bound of the range.
    pub closed spec fn spec_left(self) -> int {
        self.left as int
    }

    /// The right bound of the range.
    pub closed spec fn spec_right(self) -> int {
        self.right as int
    }

    /// The range `[left, right]`.
    pub fn new(left: TimePointIndex, right: TimePointIndex) -> (r: StrictRange)
        ensures
            r.spec_left() == left,
            r.spec_right() == right,
    {
        StrictRange { left, right }
    }

    /// The left bound.
    pub fn left(self) -> (r: TimePointIndex)
        ensures
            r == self.spec_left(),
    {
        self.left
    }

    /// The right bound.
    pub fn right(self) -> (r: TimePointIndex)
        ensures
            r == self.spec_right(),
    {
        self.right
    }

    /// The number of indices `right - left + 1`, exactly.
    pub fn count(self) -> (r: i128)
        ensures
            r == self.spec_right() - self.spec_left() + 1,
    {
        self.right as i128 - self.left as i128 + 1
    }

    /// Whether `left <= index <= right`.
    pub fn contains(self, index: TimePointIndex) -> (r: bool)
        ensures
            r == (self.spec_left() <= index <= self.spec_right()),
    {
        self.left <= index && index <= self.right
    }
}

} // verus!
