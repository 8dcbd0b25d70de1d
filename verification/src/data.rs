//! Folding a completed candle buffer into the extrema a chart needs.

use vstd::prelude::*;
use crate::candle::Candle;

verus! {

/// A completed, ordered candle series together with the axis extrema a
/// rendering layer needs: the last close time (right edge of the x
/// axis), the highest price, and the highest volume. Computed once, on
/// completion of a load episode, in a single pass; recomputed from
/// scratch on any new load.
pub struct Data {
    /// The candles, in the order they were accumulated.
    pub vals: Vec<Candle>,
    /// Close time of the chronologically last candle.
    pub max_x: u64,
    /// Maximum `high` across all candles.
    pub max_y: u64,
    /// Maximum `volume` across all candles.
    pub max_vol: u64,
}

impl Data {
    /// The summary is faithful to the series `s`: it holds exactly those
    /// candles, its price and volume extrema are attained in them, and
    /// its right edge is the last candle's close time.
    pub open spec fn summarizes(self, s: Seq<Candle>) -> bool {
        &&& self.vals@ == s
        &&& s.len() > 0
        &&& (forall|i: int| 0 <= i < s.len() ==> s[i].high <= self.max_y)
        &&& (exists|i: int| 0 <= i < s.len() && s[i].high == self.max_y)
        &&& (forall|i: int| 0 <= i < s.len() ==> s[i].volume <= self.max_vol)
        &&& (exists|i: int| 0 <= i < s.len() && s[i].volume == self.max_vol)
        &&& self.max_x == s.last().t_close
    }

    /// Folds a non-empty buffer into its summary in one pass. The caller
    /// guarantees non-emptiness: an empty buffer never reaches this
    /// point, because a completed episode with nothing accumulated has
    /// nothing to render.
    pub fn new(vals: Vec<Candle>) -> (r: Data)
        requires
            vals@.len() > 0,
        ensures
            r.summarizes(vals@),
    {
        let mut max_y: u64 = vals[0].high;
        let mut max_vol: u64 = vals[0].volume;
        let mut i: usize = 1;
        while i < vals.len()
            invariant
                1 <= i <= vals@.len(),
                forall|j: int| 0 <= j < i ==> vals@[j].high <= max_y,
                exists|j: int| 0 <= j < i && vals@[j].high == max_y,
                forall|j: int| 0 <= j < i ==> vals@[j].volume <= max_vol,
                exists|j: int| 0 <= j < i && vals@[j].volume == max_vol,
            decreases vals@.len() - i,
        {
            if vals[i].high > max_y {
                max_y = vals[i].high;
            }
            if vals[i].volume > max_vol {
                max_vol = vals[i].volume;
            }
            i = i + 1;
        }
        let max_x: u64 = vals[vals.len() - 1].t_close;
        Data { vals, max_x, max_y, max_vol }
    }

    /// Right edge of the time axis: the last candle's close time.
    pub fn max_x(&self) -> (r: u64)
        ensures
            r == self.max_x,
    {
        self.max_x
    }

    /// Top of the price axis: the maximum `high`.
    pub fn max_y(&self) -> (r: u64)
        ensures
            r == self.max_y,
    {
        self.max_y
    }

    /// Top of the volume axis: the maximum `volume`.
    pub fn max_vol(&self) -> (r: u64)
        ensures
            r == self.max_vol,
    {
        self.max_vol
    }
}

} // verus!
