use vstd::prelude::*;

use crate::error::{invalid_data, is_invalid_data, ChartError, ChartResult};
use crate::float_bits::{
    bits_eq, bits_finite_positive, bits_is_finite, bits_le, bits_lt, eq, finite_positive, is_finite,
    le, lt, F64Bits,
};
use crate::validation::checked_result;
use crate::types::Viewport;

verus! {

/// A sample of a line series: logical time `x` and value `y`, both encoded `f64`.
#[derive(Debug, Clone, Copy, PartialEq, Eq, Structural)]
pub struct DataPoint {
    pub x: F64Bits,
    pub y: F64Bits,
}

impl DataPoint {
    pub fn new(x: F64Bits, y: F64Bits) -> (r: DataPoint)
        ensures
            r == (DataPoint { x, y }),
    {
        DataPoint { x, y }
    }
}

/// One OHLC bar; all fields are encoded `f64`.
#[derive(Debug, Clone, Copy, PartialEq, Eq, Structural)]
pub struct OhlcBar {
    pub time: F64Bits,
    pub open: F64Bits,
    pub high: F64Bits,
    pub low: F64Bits,
    pub close: F64Bits,
}

/// The first failing check of a bar: all values finite, `low <= high`, then open and close
/// within `[low, high]`.
pub open spec fn ohlc_error(time: F64Bits, open: F64Bits, high: F64Bits, low: F64Bits, close: F64Bits) -> Option<
    Seq<char>,
> {
    if !(is_finite(time) && is_finite(open) && is_finite(high) && is_finite(low) && is_finite(
        close,
    )) {
        Some("ohlc values must be finite"@)
    } else if lt(high, low) {
        Some("ohlc low must be <= high"@)
    } else if lt(open, low) || lt(high, open) || lt(close, low) || lt(high, close) {
        Some("ohlc open/close must be within low/high range"@)
    } else {
        None
    }
}

impl OhlcBar {
    /// A bar with finite values whose open and close lie within `[low, high]`.
    pub fn new(time: F64Bits, open: F64Bits, high: F64Bits, low: F64Bits, close: F64Bits) -> (r:
        ChartResult<OhlcBar>)
        ensures
            r is Ok <==> ohlc_error(time, open, high, low, close) is None,
            r matches Ok(b) ==> b == (OhlcBar { time, open, high, low, close }),
            r matches Ok(b) ==> le(b.low, b.open) && le(b.open, b.high) && le(b.low, b.close) && le(
                b.close,
                b.high,
            ),
            ohlc_error(time, open, high, low, close) matches Some(text) ==> is_invalid_data(
                r,
                text,
            ),
    {
        if !bits_is_finite(time) || !bits_is_finite(open) || !bits_is_finite(high)
            || !bits_is_finite(low) || !bits_is_finite(close) {
            return Err(invalid_data("ohlc values must be finite"));
        }
        if bits_lt(high, low) {
            return Err(invalid_data("ohlc low must be <= high"));
        }
        if bits_lt(open, low) || bits_lt(high, open) || bits_lt(close, low) || bits_lt(high, close) {
            return Err(invalid_data("ohlc open/close must be within low/high range"));
        }
        proof {
            lemma_accepted_bars_are_ordered(time, open, high, low, close);
        }
        Ok(OhlcBar { time, open, high, low, close })
    }

    /// The bar closed at or above its open.
    pub fn is_bullish(self) -> (r: bool)
        ensures
            r == le(self.open, self.close),
    {
        bits_le(self.open, self.close)
    }
}

/// A time lies in the inclusive window between `start` and `end`, in either order.
pub open spec fn in_time_window(t: F64Bits, start: F64Bits, end: F64Bits) -> bool {
    if le(start, end) {
        le(start, t) && le(t, end)
    } else {
        le(end, t) && le(t, start)
    }
}

/// The points whose logical time lies inside the inclusive window, in their order.
pub fn points_in_time_window(points: &[DataPoint], start: F64Bits, end: F64Bits) -> (r: Vec<
    DataPoint,
>)
    ensures
        r@ == points@.filter(|p: DataPoint| in_time_window(p.x, start, end)),
{
    let ordered = bits_le(start, end);
    let min_t = if ordered { start } else { end };
    let max_t = if ordered { end } else { start };
    let ghost pred = |p: DataPoint| in_time_window(p.x, start, end);
    let mut out: Vec<DataPoint> = Vec::new();
    let mut i: usize = 0;
    while i < points.len()
        invariant
            i <= points@.len(),
            min_t == (if le(start, end) { start } else { end }),
            max_t == (if le(start, end) { end } else { start }),
            pred == (|p: DataPoint| in_time_window(p.x, start, end)),
            out@ == points@.subrange(0, i as int).filter(pred),
        decreases points@.len() - i,
    {
        let p = points[i];
        proof {
            assert(points@.subrange(0, i as int + 1) =~= points@.subrange(0, i as int).push(p));
            points@.subrange(0, i as int).lemma_filter_push(p, pred);
        }
        if bits_le(min_t, p.x) && bits_le(p.x, max_t) {
            out.push(p);
        }
        i += 1;
    }
    proof {
        assert(points@.subrange(0, points@.len() as int) =~= points@);
    }
    out
}

/// The bars whose time lies inside the inclusive window, in their order.
pub fn candles_in_time_window(candles: &[OhlcBar], start: F64Bits, end: F64Bits) -> (r: Vec<
    OhlcBar,
>)
    ensures
        r@ == candles@.filter(|c: OhlcBar| in_time_window(c.time, start, end)),
{
    let ordered = bits_le(start, end);
    let min_t = if ordered { start } else { end };
    let max_t = if ordered { end } else { start };
    let ghost pred = |c: OhlcBar| in_time_window(c.time, start, end);
    let mut out: Vec<OhlcBar> = Vec::new();
    let mut i: usize = 0;
    while i < candles.len()
        invariant
            i <= candles@.len(),
            min_t == (if le(start, end) { start } else { end }),
            max_t == (if le(start, end) { end } else { start }),
            pred == (|c: OhlcBar| in_time_window(c.time, start, end)),
            out@ == candles@.subrange(0, i as int).filter(pred),
        decreases candles@.len() - i,
    {
        let c = candles[i];
        proof {
            assert(candles@.subrange(0, i as int + 1) =~= candles@.subrange(0, i as int).push(c));
            candles@.subrange(0, i as int).lemma_filter_push(c, pred);
        }
        if bits_le(min_t, c.time) && bits_le(c.time, max_t) {
            out.push(c);
        }
        i += 1;
    }
    proof {
        assert(candles@.subrange(0, candles@.len() as int) =~= candles@);
    }
    out
}

/// The time window is the same whichever of its ends comes first.
pub proof fn lemma_time_window_symmetric(t: F64Bits, a: F64Bits, b: F64Bits)
    ensures
        in_time_window(t, a, b) == in_time_window(t, b, a),
{
}

/// A linear mapping from a finite, non-empty domain onto the viewport width.
#[derive(Debug, Clone, Copy, PartialEq, Eq, Structural)]
pub struct LinearScale {
    domain_start: F64Bits,
    domain_end: F64Bits,
}

/// A domain is usable when both ends are finite and distinct.
pub open spec fn domain_valid(start: F64Bits, end: F64Bits) -> bool {
    is_finite(start) && is_finite(end) && !eq(start, end)
}

/// The result is the viewport error when the viewport has a zero side, then the given error
/// when the value is not finite, and success otherwise.
pub open spec fn mapping_input_checked(
    r: ChartResult<()>,
    value: F64Bits,
    viewport: Viewport,
    text: Seq<char>,
) -> bool {
    if !(viewport.width > 0 && viewport.height > 0) {
        r == Err::<(), ChartError>(
            ChartError::InvalidViewport { width: viewport.width, height: viewport.height },
        )
    } else if !is_finite(value) {
        is_invalid_data(r, text)
    } else {
        r is Ok
    }
}

fn check_mapping_input(value: F64Bits, viewport: Viewport, text: &str) -> (r: ChartResult<()>)
    ensures
        mapping_input_checked(r, value, viewport, text@),
{
    if !viewport.is_valid() {
        return Err(ChartError::InvalidViewport { width: viewport.width, height: viewport.height });
    }
    if !bits_is_finite(value) {
        return Err(invalid_data(text));
    }
    Ok(())
}

impl LinearScale {
    /// The domain `(start, end)`.
    pub closed spec fn spec_domain(self) -> (F64Bits, F64Bits) {
        (self.domain_start, self.domain_end)
    }

    /// The domain is finite and non-empty.
    pub closed spec fn wf(self) -> bool {
        domain_valid(self.domain_start, self.domain_end)
    }

    /// A scale over the domain, when both ends are finite and distinct.
    pub fn new(domain_start: F64Bits, domain_end: F64Bits) -> (r: ChartResult<LinearScale>)
        ensures
            r is Ok <==> domain_valid(domain_start, domain_end),
            r matches Ok(s) ==> s.wf() && s.spec_domain() == (domain_start, domain_end),
            !domain_valid(domain_start, domain_end) ==> is_invalid_data(
                r,
                "scale domain must be finite and non-zero"@,
            ),
    {
        if !bits_is_finite(domain_start) || !bits_is_finite(domain_end) || bits_eq(
            domain_start,
            domain_end,
        ) {
            return Err(invalid_data("scale domain must be finite and non-zero"));
        }
        LinearScale { domain_start, domain_end }.ok_self()
    }

    fn ok_self(self) -> (r: ChartResult<LinearScale>)
        ensures
            r == Ok::<LinearScale, ChartError>(self),
    {
        Ok(self)
    }

    /// The domain `(start, end)`.
    pub fn domain(self) -> (r: (F64Bits, F64Bits))
        ensures
            r == self.spec_domain(),
    {
        (self.domain_start, self.domain_end)
    }

    /// The checks made before a domain value is mapped to a pixel: a valid viewport, then a
    /// finite value.
    pub fn check_domain_value(self, value: F64Bits, viewport: Viewport) -> (r: ChartResult<()>)
        ensures
            mapping_input_checked(r, value, viewport, "value must be finite"@),
    {
        check_mapping_input(value, viewport, "value must be finite")
    }

    /// The checks made before a pixel is mapped to a domain value: a valid viewport, then a
    /// finite pixel.
    pub fn check_pixel(self, pixel: F64Bits, viewport: Viewport) -> (r: ChartResult<()>)
        ensures
            mapping_input_checked(r, pixel, viewport, "pixel must be finite"@),
    {
        check_mapping_input(pixel, viewport, "pixel must be finite")
    }
}

/// The first failing check of a logical-index coordinate space: a finite base index and right
/// offset, then a finite positive bar spacing and width.
pub open spec fn coordinate_space_error(
    base_index: F64Bits,
    right_offset_bars: F64Bits,
    bar_spacing_px: F64Bits,
    width_px: F64Bits,
) -> Option<Seq<char>> {
    if !is_finite(base_index) {
        Some("base index must be finite"@)
    } else if !is_finite(right_offset_bars) {
        Some("right offset bars must be finite"@)
    } else if !finite_positive(bar_spacing_px) {
        Some("bar spacing px must be finite and > 0"@)
    } else if !finite_positive(width_px) {
        Some("width px must be finite and > 0"@)
    } else {
        None
    }
}

/// Checks the parameters of a logical-index coordinate space (all encoded `f64`).
pub fn validate_time_index_coordinate_space(
    base_index: F64Bits,
    right_offset_bars: F64Bits,
    bar_spacing_px: F64Bits,
    width_px: F64Bits,
) -> (r: ChartResult<()>)
    ensures
        checked_result(
            r,
            coordinate_space_error(base_index, right_offset_bars, bar_spacing_px, width_px),
            (),
        ),
{
    if !bits_is_finite(base_index) {
        return Err(invalid_data("base index must be finite"));
    }
    if !bits_is_finite(right_offset_bars) {
        return Err(invalid_data("right offset bars must be finite"));
    }
    if !bits_finite_positive(bar_spacing_px) {
        return Err(invalid_data("bar spacing px must be finite and > 0"));
    }
    if !bits_finite_positive(width_px) {
        return Err(invalid_data("width px must be finite and > 0"));
    }
    Ok(())
}


/// Every bar that `OhlcBar::new` accepts has finite values, `low <= high`, and open and close
/// within `[low, high]`.
pub proof fn lemma_accepted_bars_are_ordered(
    time: F64Bits,
    open: F64Bits,
    high: F64Bits,
    low: F64Bits,
    close: F64Bits,
)
    requires
        ohlc_error(time, open, high, low, close) is None,
    ensures
        is_finite(time) && is_finite(open) && is_finite(high) && is_finite(low) && is_finite(close),
        le(low, high),
        le(low, open) && le(open, high),
        le(low, close) && le(close, high),
{
    crate::float_bits::lemma_lt_trichotomy(low, high);
    crate::float_bits::lemma_lt_trichotomy(low, open);
    crate::float_bits::lemma_lt_trichotomy(open, high);
    crate::float_bits::lemma_lt_trichotomy(low, close);
    crate::float_bits::lemma_lt_trichotomy(close, high);
}

} // verus!
