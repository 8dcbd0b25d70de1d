//! Time windows: a half-open time range together with a candle interval.

use vstd::prelude::*;

verus! {

/// A candle granularity, one of a fixed set, each mapping to a known
/// duration in milliseconds.
#[derive(Clone, Copy, PartialEq, Eq, Structural, Debug)]
pub enum Interval {
    /// One minute.
    M1,
    /// Five minutes.
    M5,
    /// Fifteen minutes.
    M15,
    /// One hour.
    H1,
    /// Four hours.
    H4,
    /// One day.
    D1,
}

/// The longest interval duration, in milliseconds (one day).
pub const MAX_INTERVAL_MS: u64 = 86_400_000;

/// The shortest interval duration, in milliseconds (one minute).
pub const MIN_INTERVAL_MS: u64 = 60_000;

impl Interval {
    /// Duration of one candle of this granularity, in milliseconds.
    pub open spec fn spec_duration_ms(self) -> u64 {
        match self {
            Interval::M1 => 60_000,
            Interval::M5 => 300_000,
            Interval::M15 => 900_000,
            Interval::H1 => 3_600_000,
            Interval::H4 => 14_400_000,
            Interval::D1 => 86_400_000,
        }
    }

    /// Duration of one candle of this granularity, in milliseconds.
    pub fn duration_ms(self) -> (r: u64)
        ensures
            r == self.spec_duration_ms(),
    {
        match self {
            Interval::M1 => 60_000,
            Interval::M5 => 300_000,
            Interval::M15 => 900_000,
            Interval::H1 => 3_600_000,
            Interval::H4 => 14_400_000,
            Interval::D1 => 86_400_000,
        }
    }

    /// Every interval duration lies between one minute and one day.
    pub proof fn lemma_duration_bounds(self)
        ensures
            MIN_INTERVAL_MS <= self.spec_duration_ms() <= MAX_INTERVAL_MS,
    {
    }
}

/// A degenerate time range (`start >= end`) was rejected before any
/// loading state could be built from it.
#[derive(Clone, Copy, PartialEq, Eq, Structural, Debug)]
pub enum ValidationError {
    /// The range was empty or inverted.
    DegenerateWindow,
}

/// A half-open time range `[start, end)` in epoch milliseconds, plus the
/// candle interval to fetch it at. Immutable once constructed; a new one
/// replaces the old on each user intent.
#[derive(Clone, Copy, PartialEq, Eq, Structural, Debug)]
pub struct TimeWindow {
    /// Left edge, inclusive, epoch milliseconds.
    pub start: u64,
    /// Right edge, exclusive, epoch milliseconds.
    pub end: u64,
    /// Candle granularity for the whole window.
    pub interval: Interval,
}

impl TimeWindow {
    /// The window invariant: a non-empty range.
    pub open spec fn wf(self) -> bool {
        self.start < self.end
    }

    /// Width of the range in milliseconds; positive on a well-formed window.
    pub open spec fn span_ms(self) -> int {
        self.end - self.start
    }

    /// Builds a window, rejecting a degenerate range. This is the only
    /// validation point: a `TimeWindow` obtained here is well-formed, and
    /// an empty or inverted range never reaches the loading machinery.
    pub fn new(start: u64, end: u64, interval: Interval) -> (r: Result<TimeWindow, ValidationError>)
        ensures
            r is Ok <==> start < end,
            r is Ok ==> (r->Ok_0 == TimeWindow { start, end, interval }),
            r is Ok ==> r->Ok_0.wf(),
    {
        if start < end {
            Ok(TimeWindow { start, end, interval })
        } else {
            Err(ValidationError::DegenerateWindow)
        }
    }
}

} // verus!
