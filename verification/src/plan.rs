//! Page planning: how many bounded fetch requests cover a time window.

use vstd::prelude::*;
use vstd::arithmetic::div_mod::{
    lemma_div_pos_is_pos, lemma_fundamental_div_mod, lemma_mod_division_less_than_divisor,
};
use vstd::arithmetic::mul::lemma_mul_inequality;
use crate::window::{Interval, TimeWindow};

verus! {

/// One bounded fetch request: the left edge of a page and the maximum
/// candle count to ask for.
#[derive(Clone, Copy, PartialEq, Eq, Structural, Debug)]
pub struct PageRequest {
    /// Left edge of the page, inclusive, epoch milliseconds.
    pub from: u64,
    /// Maximum number of candles to request for this page.
    pub limit: u32,
}

/// The time width of one full page, in milliseconds: `page_size` candles
/// of the window's interval.
pub open spec fn spec_page_span_ms(interval: Interval, page_size: u32) -> int {
    interval.spec_duration_ms() * page_size
}

/// Number of pages needed to cover the window: the span divided by the
/// page span, rounded up. On a well-formed window the span is positive,
/// so this is `(span - 1) / page_span + 1`.
pub open spec fn spec_page_count(w: TimeWindow, page_size: u32) -> int {
    (w.span_ms() - 1) / spec_page_span_ms(w.interval, page_size) + 1
}

/// Derived from a window and a fixed page size: the ordered pages that
/// cover the window, walking forward from its left edge in fixed-size
/// chunks. Only the count and the first edge are materialized; each later
/// edge is discovered from the data itself as pages arrive.
#[derive(Clone, Copy, PartialEq, Eq, Structural, Debug)]
pub struct PagePlan {
    /// The window the plan covers.
    pub window: TimeWindow,
    /// Fixed maximum candle count per fetch.
    pub page_size: u32,
    /// Total pages needed to cover the window; always at least 1.
    pub page_count: u64,
}

impl PagePlan {
    /// The plan invariant: a well-formed window, a positive page size, and
    /// a page count that matches the ceiling division of the span.
    pub open spec fn wf(self) -> bool {
        &&& self.window.wf()
        &&& self.page_size >= 1
        &&& 1 <= self.page_count
        &&& self.page_count == spec_page_count(self.window, self.page_size)
    }

    /// Computes the page count for a window. The first request's edge is
    /// the window's own `start`; no I/O happens here.
    pub fn new(window: TimeWindow, page_size: u32) -> (r: PagePlan)
        requires
            window.wf(),
            page_size >= 1,
        ensures
            r.wf(),
            r.window == window,
            r.page_size == page_size,
    {
        proof {
            lemma_page_span_pos(window.interval, page_size);
        }
        let span: u64 = window.end - window.start;
        let page_span: u64 = window.interval.duration_ms() * (page_size as u64);
        let q: u64 = (span - 1) / page_span;
        proof {
            lemma_div_pos_is_pos(span - 1, page_span as int);
            lemma_multiply_divide_le_auto(span - 1, page_span as int);
        }
        let page_count: u64 = q + 1;
        PagePlan { window, page_size, page_count }
    }

    /// First request of the plan: the window's left edge, with the fixed
    /// page size as its limit.
    pub fn first_request(&self) -> (r: PageRequest)
        requires
            self.wf(),
        ensures
            r == (PageRequest { from: self.window.start, limit: self.page_size }),
    {
        PageRequest { from: self.window.start, limit: self.page_size }
    }
}

/// A full page spans at least one interval, hence at least one millisecond.
proof fn lemma_page_span_pos(interval: Interval, page_size: u32)
    requires
        page_size >= 1,
    ensures
        spec_page_span_ms(interval, page_size) >= interval.spec_duration_ms(),
        spec_page_span_ms(interval, page_size) >= 60_000,
        spec_page_span_ms(interval, page_size) <= 86_400_000 * 0x1_0000_0000,
{
    interval.lemma_duration_bounds();
    assert(interval.spec_duration_ms() * page_size >= interval.spec_duration_ms()
        && interval.spec_duration_ms() * page_size >= 60_000
        && interval.spec_duration_ms() * page_size <= 86_400_000 * 0x1_0000_0000)
        by (nonlinear_arith)
        requires
            60_000 <= interval.spec_duration_ms() <= 86_400_000,
            1 <= page_size <= 0x1_0000_0000,
    ;
}

/// The quotient of a division by a positive divisor never exceeds the
/// dividend, for a nonnegative dividend.
proof fn lemma_multiply_divide_le_auto(x: int, d: int)
    requires
        0 <= x,
        0 < d,
    ensures
        x / d <= x,
{
    lemma_fundamental_div_mod(x, d);
    lemma_mod_division_less_than_divisor(x, d);
    assert(x / d <= x) by (nonlinear_arith)
        requires
            0 <= x,
            0 < d,
            x == d * (x / d) + (x % d),
            0 <= x % d,
    ;
}

/// The page count is the least number of full pages that covers the
/// window: `page_count` pages of `page_size` candles span at least the
/// whole range, while one page fewer falls short.
pub proof fn lemma_page_count_minimal(w: TimeWindow, page_size: u32)
    requires
        w.wf(),
        page_size >= 1,
    ensures
        spec_page_count(w, page_size) >= 1,
        spec_page_count(w, page_size) * spec_page_span_ms(w.interval, page_size) >= w.span_ms(),
        (spec_page_count(w, page_size) - 1) * spec_page_span_ms(w.interval, page_size)
            < w.span_ms(),
        forall|k: int|
            0 <= k && #[trigger] (k * spec_page_span_ms(w.interval, page_size)) >= w.span_ms()
                ==> k >= spec_page_count(w, page_size),
{
    let ps = spec_page_span_ms(w.interval, page_size);
    let s = w.span_ms();
    let q = (s - 1) / ps;
    let c = spec_page_count(w, page_size);
    lemma_page_span_pos(w.interval, page_size);
    lemma_div_pos_is_pos(s - 1, ps);
    lemma_fundamental_div_mod(s - 1, ps);
    lemma_mod_division_less_than_divisor(s - 1, ps);
    let r = (s - 1) % ps;
    assert(c * ps == ps * q + ps && (c - 1) * ps == ps * q) by (nonlinear_arith)
        requires
            c == q + 1,
    ;
    assert(c * ps >= s);
    assert((c - 1) * ps < s);
    assert forall|k: int| 0 <= k && #[trigger] (k * ps) >= s implies k >= c by {
        if k < c {
            lemma_mul_inequality(k, c - 1, ps);
        }
    };
}

} // verus!
