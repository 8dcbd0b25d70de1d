//! The state machine that drives a page plan to completion.

use vstd::prelude::*;
use vstd::arithmetic::div_mod::{
    lemma_div_by_multiple, lemma_div_is_ordered, lemma_multiply_divide_lt,
};
use vstd::arithmetic::mul::{lemma_mul_inequality, lemma_mul_strict_inequality};
use crate::candle::{Candle, MAX_CLOSE_MS};
use crate::plan::{PagePlan, PageRequest, spec_page_count};
use crate::window::TimeWindow;

verus! {

/// Drives one load episode: which page is next, how much is done, and
/// whether the episode has failed. Created fresh whenever a window is
/// (re)established and discarded wholesale on the next reset; no state
/// carries over between episodes.
pub struct LoadingState {
    /// The window this episode covers.
    pub window: TimeWindow,
    /// Fixed maximum candle count per fetch.
    pub page_size: u32,
    /// Total pages needed to cover the window; at least 1.
    pub page_count: u64,
    /// Pages completed so far; never exceeds `page_count`.
    pub pages_done: u64,
    /// Left edge of the next page to fetch: initially the window's
    /// `start`, thereafter one interval past the last received candle.
    pub cursor: u64,
    /// Sticky failure flag; once set, no further page is requested until
    /// a fresh episode replaces this state.
    pub has_error: bool,
    /// All candles received so far, in arrival order. Kept on failure so
    /// partial data stays inspectable, but never handed out as a result
    /// while `has_error` is set.
    pub buffer: Vec<Candle>,
}

impl LoadingState {
    /// The state invariant: the plan quantities are consistent and an
    /// errored episode is never simultaneously complete.
    pub open spec fn wf(self) -> bool {
        &&& self.window.wf()
        &&& self.page_size >= 1
        &&& 1 <= self.page_count
        &&& self.page_count == spec_page_count(self.window, self.page_size)
        &&& self.pages_done <= self.page_count
        &&& (self.has_error ==> self.pages_done < self.page_count)
    }

    /// Still fetching: no error and pages remain.
    pub open spec fn is_pending(self) -> bool {
        !self.has_error && self.pages_done < self.page_count
    }

    /// Every page applied and no error: the episode's successful
    /// terminal state.
    pub open spec fn is_complete(self) -> bool {
        self.pages_done == self.page_count && !self.has_error
    }

    /// The episode's failed terminal state.
    pub open spec fn is_errored(self) -> bool {
        self.has_error
    }

    /// Progress as a fraction of completed pages, in thousandths,
    /// rounded down.
    pub open spec fn spec_progress_permille(self) -> int {
        self.pages_done * 1000 / (self.page_count as int)
    }

    /// A fresh episode over a plan's window: nothing done, no error, an
    /// empty buffer, and the cursor at the window's left edge.
    pub fn new(plan: PagePlan) -> (r: LoadingState)
        requires
            plan.wf(),
        ensures
            r.wf(),
            r.window == plan.window,
            r.page_size == plan.page_size,
            r.page_count == plan.page_count,
            r.pages_done == 0,
            r.cursor == plan.window.start,
            !r.has_error,
            r.buffer@ == Seq::<Candle>::empty(),
    {
        LoadingState {
            window: plan.window,
            page_size: plan.page_size,
            page_count: plan.page_count,
            pages_done: 0,
            cursor: plan.window.start,
            has_error: false,
            buffer: Vec::new(),
        }
    }

    /// The next fetch boundary: `None` exactly when the episode is no
    /// longer pending (failed, or nothing more to fetch); otherwise the
    /// page at the current cursor with the fixed page size as its limit.
    pub fn next_request(&self) -> (r: Option<PageRequest>)
        requires
            self.wf(),
        ensures
            r is Some <==> self.is_pending(),
            self.is_pending() ==> r == Some((PageRequest { from: self.cursor, limit: self.page_size })),
    {
        if self.has_error || self.pages_done >= self.page_count {
            None
        } else {
            Some(PageRequest { from: self.cursor, limit: self.page_size })
        }
    }

    /// Applies one successful page fetch: appends the batch, advances the
    /// cursor one interval past its last close time, and counts one more
    /// page as done. An empty batch while pages remain signals that the
    /// window holds no more data and forces completion instead of an
    /// error. A result arriving after failure or completion changes
    /// nothing: the error stays sticky until a fresh episode.
    pub fn record_success(&mut self, batch: Vec<Candle>)
        requires
            old(self).wf(),
            batch@.len() > 0 ==> batch@.last().t_close <= MAX_CLOSE_MS,
        ensures
            final(self).wf(),
            success_post(*old(self), *final(self), batch@),
            final(self).page_count == old(self).page_count,
            final(self).pages_done >= old(self).pages_done,
            final(self).spec_progress_permille() >= old(self).spec_progress_permille(),
    {
        if self.has_error || self.pages_done >= self.page_count {
            // A result for an episode that is already terminal changes
            // nothing: the error is sticky until a fresh state replaces it.
        } else if batch.len() == 0 {
            // No more data although pages remain: the window is fully
            // covered, so force completion rather than erroring.
            self.pages_done = self.page_count;
        } else {
            let last: Candle = batch[batch.len() - 1];
            proof {
                self.window.interval.lemma_duration_bounds();
            }
            let step: u64 = self.window.interval.duration_ms();
            self.cursor = last.t_close + step;
            let mut incoming = batch;
            self.buffer.append(&mut incoming);
            self.pages_done = self.pages_done + 1;
        }
        proof {
            lemma_progress_monotone(*old(self), *self);
        }
    }

    /// Applies one failed page fetch: the error flag becomes set and
    /// stays set, the buffer and counters are untouched. A completed
    /// episode no longer changes.
    pub fn record_failure(&mut self)
        requires
            old(self).wf(),
        ensures
            final(self).wf(),
            failure_post(*old(self), *final(self)),
            final(self).page_count == old(self).page_count,
            final(self).pages_done == old(self).pages_done,
            final(self).spec_progress_permille() == old(self).spec_progress_permille(),
    {
        if self.pages_done < self.page_count {
            self.has_error = true;
        }
    }

    /// Progress in thousandths, never above 1000, and exactly 1000 if
    /// and only if the episode is complete. The page count is at least 1,
    /// so no division by zero can occur.
    pub fn progress_permille(&self) -> (r: u64)
        requires
            self.wf(),
        ensures
            r == self.spec_progress_permille(),
            r <= 1000,
            r == 1000 <==> self.is_complete(),
    {
        proof {
            lemma_progress_full_iff_complete(*self);
            lemma_progress_in_range(*self);
        }
        let wide: u128 = (self.pages_done as u128) * 1000 / (self.page_count as u128);
        wide as u64
    }
}

/// What one successful page does to the state: a terminal episode is
/// unchanged; an empty batch forces completion with the buffer as it
/// was; a non-empty batch is appended, the cursor moves one interval
/// past its last candle's close time, and one more page counts as done.
pub open spec fn success_post(pre: LoadingState, post: LoadingState, batch: Seq<Candle>) -> bool {
    if !pre.is_pending() {
        post == pre
    } else if batch.len() == 0 {
        &&& post.window == pre.window
        &&& post.page_size == pre.page_size
        &&& post.page_count == pre.page_count
        &&& post.pages_done == pre.page_count
        &&& post.cursor == pre.cursor
        &&& post.has_error == false
        &&& post.buffer == pre.buffer
    } else {
        &&& post.window == pre.window
        &&& post.page_size == pre.page_size
        &&& post.page_count == pre.page_count
        &&& post.pages_done == pre.pages_done + 1
        &&& post.cursor == batch.last().t_close + pre.window.interval.spec_duration_ms()
        &&& post.has_error == false
        &&& post.buffer@ == pre.buffer@ + batch
    }
}

/// What one failed page does to the state: a completed episode is
/// unchanged; otherwise only the sticky error flag becomes set.
pub open spec fn failure_post(pre: LoadingState, post: LoadingState) -> bool {
    if pre.is_complete() {
        post == pre
    } else {
        &&& post.window == pre.window
        &&& post.page_size == pre.page_size
        &&& post.page_count == pre.page_count
        &&& post.pages_done == pre.pages_done
        &&& post.cursor == pre.cursor
        &&& post.has_error == true
        &&& post.buffer == pre.buffer
    }
}

/// The progress fraction lies between 0 and 1: in thousandths, between
/// 0 and 1000.
pub proof fn lemma_progress_in_range(s: LoadingState)
    requires
        s.wf(),
    ensures
        0 <= s.spec_progress_permille() <= 1000,
{
    let pd = s.pages_done as int;
    let pc = s.page_count as int;
    lemma_mul_inequality(pd, pc, 1000);
    lemma_div_is_ordered(pd * 1000, pc * 1000, pc);
    lemma_div_by_multiple(1000, pc);
    vstd::arithmetic::div_mod::lemma_div_pos_is_pos(pd * 1000, pc);
}

/// Within one episode the page count is fixed and the completed-page
/// count never decreases, so the progress fraction is monotonically
/// non-decreasing.
pub proof fn lemma_progress_monotone(a: LoadingState, b: LoadingState)
    requires
        a.wf(),
        b.wf(),
        b.page_count == a.page_count,
        a.pages_done <= b.pages_done,
    ensures
        a.spec_progress_permille() <= b.spec_progress_permille(),
{
    lemma_mul_inequality(a.pages_done as int, b.pages_done as int, 1000);
    lemma_div_is_ordered(
        a.pages_done * 1000,
        b.pages_done * 1000,
        a.page_count as int,
    );
}

/// The progress fraction reaches exactly 1 (1000 thousandths) if and
/// only if the episode is in its successful terminal state: every page
/// done and no error recorded.
pub proof fn lemma_progress_full_iff_complete(s: LoadingState)
    requires
        s.wf(),
    ensures
        s.spec_progress_permille() == 1000 <==> s.is_complete(),
{
    let pd = s.pages_done as int;
    let pc = s.page_count as int;
    if pd == pc {
        lemma_div_by_multiple(1000, pc);
    } else {
        lemma_mul_strict_inequality(pd, pc, 1000);
        lemma_multiply_divide_lt(pd * 1000, pc, 1000);
    }
}

} // verus!
