use vstd::prelude::*;

use crate::error::{invalid_data, ChartResult};
use vstd::string::StrSliceExecFns;

use crate::float_bits::{
    bits_finite_positive, bits_is_nan, bits_le, finite_positive, is_nan, le, lemma_lt_transitive, lt,
    eq, F64Bits,
};
use crate::validation::checked_result;

verus! {

/// Maturity of an optional feature module.
#[derive(Debug, Clone, Copy, PartialEq, Eq, Structural)]
pub enum ExtensionStatus {
    Planned,
    Experimental,
    Stable,
}

/// Where a marker sits relative to its bar.
#[derive(Debug, Clone, Copy, PartialEq, Eq, Structural)]
pub enum MarkerSide {
    Above,
    Below,
    Center,
}


/// Where a marker is anchored on its bar.
#[derive(Debug, Clone, Copy, PartialEq, Eq, Structural)]
pub enum MarkerPosition {
    AboveBar,
    BelowBar,
    InBar,
    /// At an explicit price (encoded `f64`).
    Price(F64Bits),
}

/// A marker attached to a series at a logical time (encoded `f64`).
#[derive(Debug, Clone, PartialEq, Eq)]
pub struct SeriesMarker {
    pub id: String,
    pub time: F64Bits,
    pub position: MarkerPosition,
    pub text: Option<String>,
    pub priority: i32,
}

impl SeriesMarker {
    /// A marker without text and with priority 0.
    pub fn new(id: String, time: F64Bits, position: MarkerPosition) -> (r: SeriesMarker)
        ensures
            r.id@ == id@,
            r.time == time,
            r.position == position,
            r.text is None,
            r.priority == 0,
    {
        SeriesMarker { id, time, position, text: None, priority: 0 }
    }

    /// The marker with a label text.
    pub fn with_text(self, text: String) -> (r: SeriesMarker)
        ensures
            r.id@ == self.id@,
            r.time == self.time,
            r.position == self.position,
            r.text matches Some(t) && t@ == text@,
            r.priority == self.priority,
    {
        let mut r = self;
        r.text = Some(text);
        r
    }

    /// The marker with a placement priority; higher priorities are placed first.
    pub fn with_priority(self, priority: i32) -> (r: SeriesMarker)
        ensures
            r.id@ == self.id@,
            r.time == self.time,
            r.position == self.position,
            r.text == self.text,
            r.priority == priority,
    {
        let mut r = self;
        r.priority = priority;
        r
    }
}

/// The side of its anchor on which a marker is drawn.
pub open spec fn spec_side_for_position(position: MarkerPosition) -> MarkerSide {
    match position {
        MarkerPosition::AboveBar => MarkerSide::Above,
        MarkerPosition::BelowBar => MarkerSide::Below,
        MarkerPosition::InBar | MarkerPosition::Price(_) => MarkerSide::Center,
    }
}

/// The side of its anchor on which a marker is drawn.
pub fn side_for_position(position: MarkerPosition) -> (r: MarkerSide)
    ensures
        r == spec_side_for_position(position),
{
    match position {
        MarkerPosition::AboveBar => MarkerSide::Above,
        MarkerPosition::BelowBar => MarkerSide::Below,
        MarkerPosition::InBar | MarkerPosition::Price(_) => MarkerSide::Center,
    }
}

/// Sizes and gaps used to place markers, in pixels (encoded `f64`).
#[derive(Debug, Clone, Copy, PartialEq, Eq, Structural)]
pub struct MarkerPlacementConfig {
    pub marker_size_px: F64Bits,
    pub label_char_width_px: F64Bits,
    pub label_height_px: F64Bits,
    pub label_horizontal_padding_px: F64Bits,
    pub marker_label_gap_px: F64Bits,
    pub lane_gap_px: F64Bits,
    pub min_horizontal_gap_px: F64Bits,
    pub vertical_offset_px: F64Bits,
}

impl Default for MarkerPlacementConfig {
    fn default() -> (r: MarkerPlacementConfig)
        ensures
            r.marker_size_px == 0x4020_0000_0000_0000,
            r.label_char_width_px == 0x401c_0000_0000_0000,
            r.label_height_px == 0x402c_0000_0000_0000,
            r.label_horizontal_padding_px == 0x4018_0000_0000_0000,
            r.marker_label_gap_px == 0x4010_0000_0000_0000,
            r.lane_gap_px == 0x4010_0000_0000_0000,
            r.min_horizontal_gap_px == 0x4000_0000_0000_0000,
            r.vertical_offset_px == 0x4018_0000_0000_0000,
    {
        MarkerPlacementConfig {
            marker_size_px: 0x4020_0000_0000_0000,  // 8.0
            label_char_width_px: 0x401c_0000_0000_0000,  // 7.0
            label_height_px: 0x402c_0000_0000_0000,  // 14.0
            label_horizontal_padding_px: 0x4018_0000_0000_0000,  // 6.0
            marker_label_gap_px: 0x4010_0000_0000_0000,  // 4.0
            lane_gap_px: 0x4010_0000_0000_0000,  // 4.0
            min_horizontal_gap_px: 0x4000_0000_0000_0000,  // 2.0
            vertical_offset_px: 0x4018_0000_0000_0000,  // 6.0
        }
    }
}

/// The first size or gap of the configuration that is not finite and positive.
pub open spec fn marker_config_error(c: MarkerPlacementConfig) -> Option<Seq<char>> {
    if !finite_positive(c.marker_size_px) {
        Some("marker config `marker_size_px` must be finite and > 0"@)
    } else if !finite_positive(c.label_char_width_px) {
        Some("marker config `label_char_width_px` must be finite and > 0"@)
    } else if !finite_positive(c.label_height_px) {
        Some("marker config `label_height_px` must be finite and > 0"@)
    } else if !finite_positive(c.label_horizontal_padding_px) {
        Some("marker config `label_horizontal_padding_px` must be finite and > 0"@)
    } else if !finite_positive(c.marker_label_gap_px) {
        Some("marker config `marker_label_gap_px` must be finite and > 0"@)
    } else if !finite_positive(c.lane_gap_px) {
        Some("marker config `lane_gap_px` must be finite and > 0"@)
    } else if !finite_positive(c.min_horizontal_gap_px) {
        Some("marker config `min_horizontal_gap_px` must be finite and > 0"@)
    } else if !finite_positive(c.vertical_offset_px) {
        Some("marker config `vertical_offset_px` must be finite and > 0"@)
    } else {
        None
    }
}

impl MarkerPlacementConfig {
    /// The configuration itself when every size and gap is finite and positive.
    pub fn validate(self) -> (r: ChartResult<MarkerPlacementConfig>)
        ensures
            checked_result(r, marker_config_error(self), self),
    {
        if !bits_finite_positive(self.marker_size_px) {
            return Err(invalid_data("marker config `marker_size_px` must be finite and > 0"));
        }
        if !bits_finite_positive(self.label_char_width_px) {
            return Err(invalid_data("marker config `label_char_width_px` must be finite and > 0"));
        }
        if !bits_finite_positive(self.label_height_px) {
            return Err(invalid_data("marker config `label_height_px` must be finite and > 0"));
        }
        if !bits_finite_positive(self.label_horizontal_padding_px) {
            return Err(invalid_data("marker config `label_horizontal_padding_px` must be finite and > 0"));
        }
        if !bits_finite_positive(self.marker_label_gap_px) {
            return Err(invalid_data("marker config `marker_label_gap_px` must be finite and > 0"));
        }
        if !bits_finite_positive(self.lane_gap_px) {
            return Err(invalid_data("marker config `lane_gap_px` must be finite and > 0"));
        }
        if !bits_finite_positive(self.min_horizontal_gap_px) {
            return Err(invalid_data("marker config `min_horizontal_gap_px` must be finite and > 0"));
        }
        if !bits_finite_positive(self.vertical_offset_px) {
            return Err(invalid_data("marker config `vertical_offset_px` must be finite and > 0"));
        }
        Ok(self)
    }
}

/// `OrderedFloat`'s `a >= b`: NaN is at least every value; otherwise the IEEE-754 `>=`.
pub open spec fn ordered_ge(a: F64Bits, b: F64Bits) -> bool {
    is_nan(a) || le(b, a)
}

/// `OrderedFloat`'s comparison as `-1`, `0` or `1`: values compare as `f64` (so `-0.0` equals
/// `0.0`), and every NaN equals every NaN and is greater than every other value.
pub open spec fn ordered_float_order(a: F64Bits, b: F64Bits) -> int {
    if !ordered_ge(a, b) {
        -1
    } else if !ordered_ge(b, a) {
        1
    } else {
        0
    }
}

/// Compares two encoded values as `OrderedFloat` does.
pub fn compare_ordered_floats(a: F64Bits, b: F64Bits) -> (r: i8)
    ensures
        r as int == ordered_float_order(a, b),
{
    let a_ge_b = bits_is_nan(a) || bits_le(b, a);
    let b_ge_a = bits_is_nan(b) || bits_le(a, b);
    if !a_ge_b {
        -1
    } else if !b_ge_a {
        1
    } else {
        0
    }
}

/// Lexicographic comparison of texts by code point, the order in which `str` compares UTF-8
/// text.
pub open spec fn text_order(a: Seq<char>, b: Seq<char>) -> int
    decreases a.len(),
{
    if a.len() == 0 && b.len() == 0 {
        0
    } else if a.len() == 0 {
        -1
    } else if b.len() == 0 {
        1
    } else if (a[0] as u32) < (b[0] as u32) {
        -1
    } else if (a[0] as u32) > (b[0] as u32) {
        1
    } else {
        text_order(a.drop_first(), b.drop_first())
    }
}

/// Compares two texts lexicographically by code point.
pub fn compare_texts(a: &str, b: &str) -> (r: i8)
    ensures
        r as int == text_order(a@, b@),
{
    let n = a.unicode_len();
    let m = b.unicode_len();
    let mut i: usize = 0;
    assert(a@.subrange(0, n as int) =~= a@);
    assert(b@.subrange(0, m as int) =~= b@);
    while i < n && i < m
        invariant
            n == a@.len(),
            m == b@.len(),
            i <= n,
            i <= m,
            text_order(a@, b@) == text_order(
                a@.subrange(i as int, n as int),
                b@.subrange(i as int, m as int),
            ),
        decreases n - i,
    {
        let ca = a.get_char(i);
        let cb = b.get_char(i);
        proof {
            assert(a@.subrange(i as int, n as int)[0] == ca);
            assert(b@.subrange(i as int, m as int)[0] == cb);
            assert(a@.subrange(i as int, n as int).drop_first() =~= a@.subrange(i as int + 1, n as int));
            assert(b@.subrange(i as int, m as int).drop_first() =~= b@.subrange(i as int + 1, m as int));
        }
        if (ca as u32) < (cb as u32) {
            return -1;
        }
        if (ca as u32) > (cb as u32) {
            return 1;
        }
        i += 1;
    }
    if i == n && i == m {
        0
    } else if i == n {
        -1
    } else {
        1
    }
}

/// The placement order of two prepared markers: by logical x (as `OrderedFloat`), then by
/// priority, higher first, then by identifier, then by input position.
pub open spec fn marker_placement_order(
    a_x: F64Bits,
    a_priority: i32,
    a_id: Seq<char>,
    a_index: usize,
    b_x: F64Bits,
    b_priority: i32,
    b_id: Seq<char>,
    b_index: usize,
) -> int {
    if ordered_float_order(a_x, b_x) != 0 {
        ordered_float_order(a_x, b_x)
    } else if a_priority != b_priority {
        if a_priority > b_priority {
            -1
        } else {
            1
        }
    } else if text_order(a_id, b_id) != 0 {
        text_order(a_id, b_id)
    } else if a_index < b_index {
        -1
    } else if a_index > b_index {
        1
    } else {
        0
    }
}

/// Compares two prepared markers in placement order: `-1` when `a` is placed first, `1`
/// when `b` is, `0` when they tie.
pub fn compare_marker_placement(
    a_x: F64Bits,
    a_priority: i32,
    a_id: &str,
    a_index: usize,
    b_x: F64Bits,
    b_priority: i32,
    b_id: &str,
    b_index: usize,
) -> (r: i8)
    ensures
        r as int == marker_placement_order(
            a_x,
            a_priority,
            a_id@,
            a_index,
            b_x,
            b_priority,
            b_id@,
            b_index,
        ),
{
    let by_x = compare_ordered_floats(a_x, b_x);
    if by_x != 0 {
        return by_x;
    }
    if a_priority != b_priority {
        return if a_priority > b_priority {
            -1
        } else {
            1
        };
    }
    let by_id = compare_texts(a_id, b_id);
    if by_id != 0 {
        return by_id;
    }
    if a_index < b_index {
        -1
    } else if a_index > b_index {
        1
    } else {
        0
    }
}

/// Swapping the operands of the `OrderedFloat` comparison negates it.
pub proof fn lemma_ordered_float_order_antisymmetric(a: F64Bits, b: F64Bits)
    ensures
        ordered_float_order(a, b) == -ordered_float_order(b, a),
{
}

/// The `OrderedFloat` comparison is transitive: every value is at most a value that is at
/// most a third.
pub proof fn lemma_ordered_float_order_transitive(a: F64Bits, b: F64Bits, c: F64Bits)
    requires
        ordered_float_order(a, b) <= 0,
        ordered_float_order(b, c) <= 0,
    ensures
        ordered_float_order(a, c) <= 0,
{
    if !is_nan(a) && !is_nan(b) && !is_nan(c) {
        if lt(a, b) && lt(b, c) {
            lemma_lt_transitive(a, b, c);
        }
    }
}

/// Swapping the operands of the text comparison negates it.
pub proof fn lemma_text_order_antisymmetric(a: Seq<char>, b: Seq<char>)
    ensures
        text_order(a, b) == -text_order(b, a),
    decreases a.len(),
{
    if a.len() > 0 && b.len() > 0 && (a[0] as u32) == (b[0] as u32) {
        lemma_text_order_antisymmetric(a.drop_first(), b.drop_first());
    }
}

/// The text comparison is transitive.
pub proof fn lemma_text_order_transitive(a: Seq<char>, b: Seq<char>, c: Seq<char>)
    requires
        text_order(a, b) <= 0,
        text_order(b, c) <= 0,
    ensures
        text_order(a, c) <= 0,
    decreases a.len(),
{
    if a.len() > 0 && b.len() > 0 && c.len() > 0 && (a[0] as u32) == (b[0] as u32) && (b[0] as u32)
        == (c[0] as u32) {
        lemma_text_order_transitive(a.drop_first(), b.drop_first(), c.drop_first());
    }
}

/// Swapping two markers negates their placement comparison, so the order does not depend on
/// which of them is asked about first.
pub proof fn lemma_marker_placement_order_antisymmetric(
    a_x: F64Bits,
    a_priority: i32,
    a_id: Seq<char>,
    a_index: usize,
    b_x: F64Bits,
    b_priority: i32,
    b_id: Seq<char>,
    b_index: usize,
)
    ensures
        marker_placement_order(a_x, a_priority, a_id, a_index, b_x, b_priority, b_id, b_index)
            == -marker_placement_order(b_x, b_priority, b_id, b_index, a_x, a_priority, a_id, a_index),
{
    lemma_ordered_float_order_antisymmetric(a_x, b_x);
    lemma_text_order_antisymmetric(a_id, b_id);
}

/// Chaining two `OrderedFloat` comparisons: the ends compare no higher, and equal only when
/// both links are equal.
proof fn lemma_ordered_float_chain(a: F64Bits, b: F64Bits, c: F64Bits)
    requires
        ordered_float_order(a, b) <= 0,
        ordered_float_order(b, c) <= 0,
    ensures
        ordered_float_order(a, c) <= 0,
        ordered_float_order(a, c) == 0 ==> ordered_float_order(a, b) == 0 && ordered_float_order(
            b,
            c,
        ) == 0,
{
    lemma_ordered_float_order_transitive(a, b, c);
    if ordered_float_order(a, c) == 0 {
        lemma_ordered_float_order_antisymmetric(a, c);
        lemma_ordered_float_order_transitive(c, a, b);
        lemma_ordered_float_order_antisymmetric(b, c);
        lemma_ordered_float_order_transitive(b, c, a);
        lemma_ordered_float_order_antisymmetric(a, b);
    }
}

/// Chaining two text comparisons: the ends compare no higher, and equal only when both links
/// are equal.
proof fn lemma_text_chain(a: Seq<char>, b: Seq<char>, c: Seq<char>)
    requires
        text_order(a, b) <= 0,
        text_order(b, c) <= 0,
    ensures
        text_order(a, c) <= 0,
        text_order(a, c) == 0 ==> text_order(a, b) == 0 && text_order(b, c) == 0,
{
    lemma_text_order_transitive(a, b, c);
    if text_order(a, c) == 0 {
        lemma_text_order_antisymmetric(a, c);
        lemma_text_order_transitive(c, a, b);
        lemma_text_order_antisymmetric(b, c);
        lemma_text_order_transitive(b, c, a);
        lemma_text_order_antisymmetric(a, b);
    }
}

/// Placement order is transitive: a marker placed no later than a second, which is placed no
/// later than a third, is placed no later than the third.
pub proof fn lemma_marker_placement_order_transitive(
    a_x: F64Bits,
    a_priority: i32,
    a_id: Seq<char>,
    a_index: usize,
    b_x: F64Bits,
    b_priority: i32,
    b_id: Seq<char>,
    b_index: usize,
    c_x: F64Bits,
    c_priority: i32,
    c_id: Seq<char>,
    c_index: usize,
)
    requires
        marker_placement_order(a_x, a_priority, a_id, a_index, b_x, b_priority, b_id, b_index) <= 0,
        marker_placement_order(b_x, b_priority, b_id, b_index, c_x, c_priority, c_id, c_index) <= 0,
    ensures
        marker_placement_order(a_x, a_priority, a_id, a_index, c_x, c_priority, c_id, c_index) <= 0,
{
    lemma_ordered_float_chain(a_x, b_x, c_x);
    if ordered_float_order(a_x, b_x) == 0 && ordered_float_order(b_x, c_x) == 0 && a_priority
        == b_priority && b_priority == c_priority {
        lemma_text_chain(a_id, b_id, c_id);
    }
}

} // verus!
