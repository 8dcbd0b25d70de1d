//! The candle (kline) record the engine accumulates.

use vstd::prelude::*;

verus! {

/// One OHLCV record for a fixed time bucket. Times are epoch
/// milliseconds; prices and volume are fixed-point integers, scaled by
/// the caller's convention. The engine itself reads only `t_close` (to
/// advance the page cursor), `high` and `volume` (for the axis extrema);
/// every other field passes through untouched.
#[derive(Clone, Copy, PartialEq, Eq, Structural, Debug)]
pub struct Candle {
    /// Open time of the bucket, inclusive, epoch milliseconds.
    pub t_open: u64,
    /// Close time of the bucket, epoch milliseconds.
    pub t_close: u64,
    /// Opening price, fixed-point.
    pub open: u64,
    /// Highest price, fixed-point.
    pub high: u64,
    /// Lowest price, fixed-point.
    pub low: u64,
    /// Closing price, fixed-point.
    pub close: u64,
    /// Traded volume, fixed-point.
    pub volume: u64,
}

/// The largest close time the engine accepts: far enough below the
/// integer ceiling that the cursor can always step one interval past it.
pub const MAX_CLOSE_MS: u64 = u64::MAX - 86_400_000;

} // verus!
