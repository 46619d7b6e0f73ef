use vstd::prelude::*;

use crate::float_bits::F64Bits;

verus! {

/// How time-axis labels are formatted.
#[derive(Debug, Clone, Copy, PartialEq, Eq, Structural)]
pub enum TimeAxisLabelPolicy {
    /// Logical time values with a fixed number of decimals.
    LogicalDecimal { precision: u8 },
    /// Unix timestamps rendered as UTC date and time.
    UtcDateTime { show_seconds: bool },
    /// Unix timestamps with a format picked from the visible span.
    UtcAdaptive,
}

/// The time zone in which time-axis labels are rendered.
#[derive(Debug, Clone, Copy, PartialEq, Eq, Structural)]
pub enum TimeAxisTimeZone {
    Utc,
    /// A fixed offset east of UTC, in minutes.
    FixedOffsetMinutes { minutes: i16 },
}

impl TimeAxisTimeZone {
    /// The offset east of UTC in minutes.
    pub open spec fn spec_offset_minutes(self) -> i16 {
        match self {
            TimeAxisTimeZone::Utc => 0,
            TimeAxisTimeZone::FixedOffsetMinutes { minutes } => minutes,
        }
    }

    /// The offset east of UTC in minutes.
    pub fn offset_minutes(self) -> (r: i16)
        ensures
            r == self.spec_offset_minutes(),
    {
        match self {
            TimeAxisTimeZone::Utc => 0,
            TimeAxisTimeZone::FixedOffsetMinutes { minutes } => minutes,
        }
    }
}

/// A trading session within the day, used to tell session boundaries on the time axis.
#[derive(Debug, Clone, Copy, PartialEq, Eq, Structural)]
pub struct TimeAxisSessionConfig {
    pub start_hour: u8,
    pub start_minute: u8,
    pub end_hour: u8,
    pub end_minute: u8,
}

impl TimeAxisSessionConfig {
    /// Minutes from midnight to the session start.
    pub open spec fn spec_start_minute_of_day(self) -> int {
        self.start_hour * 60 + self.start_minute
    }

    /// Minutes from midnight to the session end.
    pub open spec fn spec_end_minute_of_day(self) -> int {
        self.end_hour * 60 + self.end_minute
    }

    /// Minutes from midnight to the session start.
    pub fn start_minute_of_day(self) -> (r: u16)
        ensures
            r == self.spec_start_minute_of_day(),
    {
        self.start_hour as u16 * 60 + self.start_minute as u16
    }

    /// Minutes from midnight to the session end.
    pub fn end_minute_of_day(self) -> (r: u16)
        ensures
            r == self.spec_end_minute_of_day(),
    {
        self.end_hour as u16 * 60 + self.end_minute as u16
    }
}

/// Formatting of time-axis labels.
#[derive(Debug, Clone, Copy, PartialEq, Eq, Structural)]
pub struct TimeAxisLabelConfig {
    pub policy: TimeAxisLabelPolicy,
    pub timezone: TimeAxisTimeZone,
    pub session: Option<TimeAxisSessionConfig>,
}

/// How price-axis labels are formatted.
#[derive(Debug, Clone, Copy, PartialEq, Eq, Structural)]
pub enum PriceAxisLabelPolicy {
    /// A fixed number of decimals.
    FixedDecimals { precision: u8 },
    /// Prices rounded to a multiple of `min_move` (an encoded `f64`).
    MinMove { min_move: F64Bits, trim_trailing_zeros: bool },
    /// Decimals picked from the tick step.
    Adaptive,
}

/// What the price axis shows for a price.
#[derive(Debug, Clone, Copy, PartialEq, Eq, Structural)]
pub enum PriceAxisDisplayMode {
    /// The raw price.
    Normal,
    /// The change in percent from a base price (an encoded `f64`; the first visible price when
    /// absent).
    Percentage { base_price: Option<F64Bits> },
    /// The price indexed so that the base price reads 100.
    IndexedTo100 { base_price: Option<F64Bits> },
}

/// Formatting of price-axis labels.
#[derive(Debug, Clone, Copy, PartialEq, Eq, Structural)]
pub struct PriceAxisLabelConfig {
    pub policy: PriceAxisLabelPolicy,
    pub display_mode: PriceAxisDisplayMode,
}

} // verus!
