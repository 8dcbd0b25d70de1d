//! The orchestrator of load episodes: reacts to user intents and fetch
//! outcomes, and publishes the result once a window is fully loaded.

use vstd::prelude::*;
use crate::candle::{Candle, MAX_CLOSE_MS};
use crate::data::Data;
use crate::loading::{failure_post, success_post, LoadingState};
use crate::plan::{PagePlan, PageRequest};
use crate::window::{Interval, TimeWindow, ValidationError};

verus! {

/// Fixed maximum candle count per fetch request.
pub const PAGE_SIZE: u32 = 1000;

/// How far back the default window reaches, in milliseconds: one day.
pub const DEFAULT_SPAN_MS: u64 = 86_400_000;

/// The raw shape of a user-chosen range, as a picker or a drag gesture
/// hands it over: not yet validated.
#[derive(Clone, Copy, PartialEq, Eq, Structural, Debug)]
pub struct Props {
    /// Requested left edge, inclusive, epoch milliseconds.
    pub start: u64,
    /// Requested right edge, exclusive, epoch milliseconds.
    pub end: u64,
    /// Requested candle granularity.
    pub interval: Interval,
}

impl Props {
    /// The window these props describe, before validation.
    pub open spec fn spec_window(self) -> TimeWindow {
        TimeWindow { start: self.start, end: self.end, interval: self.interval }
    }

    /// The default range shown for a freshly selected symbol: the last
    /// day up to `now`, at one-hour candles.
    pub open spec fn spec_default_at(now: u64) -> Props {
        Props {
            start: if now >= DEFAULT_SPAN_MS {
                (now - DEFAULT_SPAN_MS) as u64
            } else {
                0
            },
            end: now,
            interval: Interval::H1,
        }
    }

    /// Builds the default range for a freshly selected symbol.
    pub fn default_at(now: u64) -> (r: Props)
        ensures
            r == Props::spec_default_at(now),
    {
        let start: u64 = if now >= DEFAULT_SPAN_MS {
            now - DEFAULT_SPAN_MS
        } else {
            0
        };
        Props { start, end: now, interval: Interval::H1 }
    }
}

/// One user intent. Each fully replaces the active episode; whatever the
/// old episode still had in flight is ignored when it resolves.
pub enum Intent {
    /// A new symbol was selected; loading restarts over a default range.
    SymbolChanged(String),
    /// An explicit range was chosen in a picker.
    RangeChosen(Props),
    /// A zoom-to-selection drag, already converted to timestamps.
    Dragged(Props),
    /// Like a chosen range, but the completed buffer is additionally
    /// meant for export.
    ExportRequested(Props),
}

impl Intent {
    /// The window an intent asks for, before validation.
    pub open spec fn spec_window(self, now: u64) -> TimeWindow {
        match self {
            Intent::SymbolChanged(_) => Props::spec_default_at(now).spec_window(),
            Intent::RangeChosen(p) => p.spec_window(),
            Intent::Dragged(p) => p.spec_window(),
            Intent::ExportRequested(p) => p.spec_window(),
        }
    }
}

/// What one page fetch came back with: a batch of candles, or a failure
/// (network, API, rate limit, parse — the engine does not distinguish).
pub enum FetchOutcome {
    /// The page's candles, oldest first; possibly empty when the range
    /// holds no more data.
    Batch(Vec<Candle>),
    /// The fetch failed; the episode halts until a new intent.
    Failed,
}

/// Owns the active load episode: the symbol, the loading state over the
/// active window, the export tag, and the episode counter that keeps a
/// stale fetch result of a discarded episode from touching a new one.
pub struct Session {
    /// The selected trading symbol; empty until one is chosen.
    pub symbol: String,
    /// Counts episodes; a fetch result is applied only if it carries the
    /// episode it was issued under.
    pub episode: u64,
    /// Whether the current episode's completed buffer is meant for export.
    pub export: bool,
    /// The active episode's loading state; `None` before the first intent.
    pub loading: Option<LoadingState>,
}

/// A freshly reset loading state over window `w`: nothing done, no
/// error, an empty buffer, the cursor at the window's left edge, and the
/// page count derived from `w` at the fixed page size.
pub open spec fn fresh_loading(ls: LoadingState, w: TimeWindow) -> bool {
    &&& ls.wf()
    &&& ls.window == w
    &&& ls.page_size == PAGE_SIZE
    &&& ls.pages_done == 0
    &&& ls.cursor == w.start
    &&& !ls.has_error
    &&& ls.buffer@ == Seq::<Candle>::empty()
}

impl Session {
    /// The session invariant: whatever episode is active is well-formed.
    pub open spec fn wf(self) -> bool {
        self.loading matches Some(ls) ==> ls.wf()
    }

    /// A session with no symbol and no episode yet.
    pub fn new() -> (r: Session)
        ensures
            r.wf(),
            r.symbol@ == Seq::<char>::empty(),
            r.episode == 0,
            !r.export,
            r.loading is None,
    {
        Session { symbol: String::new(), episode: 0, export: false, loading: None }
    }

    /// Replaces the active episode with a fresh one over the intent's
    /// window. A degenerate range is rejected and the session is left
    /// exactly as it was; otherwise the episode counter advances (so any
    /// still-in-flight fetch of the old episode is orphaned), the export
    /// tag is set exactly for an export intent, the symbol is updated
    /// exactly by a symbol change, and loading starts from scratch.
    pub fn handle_intent(&mut self, intent: Intent, now: u64) -> (r: Result<(), ValidationError>)
        requires
            old(self).wf(),
            old(self).episode < u64::MAX,
        ensures
            final(self).wf(),
            r is Ok <==> intent.spec_window(now).wf(),
            r is Err ==> *final(self) == *old(self),
            r is Ok ==> final(self).episode == old(self).episode + 1,
            r is Ok ==> final(self).export == (intent is ExportRequested),
            r is Ok && intent is SymbolChanged ==> final(self).symbol
                == intent->SymbolChanged_0,
            r is Ok && !(intent is SymbolChanged) ==> final(self).symbol == old(self).symbol,
            r is Ok ==> final(self).loading is Some,
            r is Ok ==> fresh_loading(final(self).loading->Some_0, intent.spec_window(now)),
    {
        let props: Props = match &intent {
            Intent::SymbolChanged(_) => Props::default_at(now),
            Intent::RangeChosen(p) => *p,
            Intent::Dragged(p) => *p,
            Intent::ExportRequested(p) => *p,
        };
        match TimeWindow::new(props.start, props.end, props.interval) {
            Ok(w) => {
                let plan: PagePlan = PagePlan::new(w, PAGE_SIZE);
                self.loading = Some(LoadingState::new(plan));
                self.episode = self.episode + 1;
                self.export = matches!(intent, Intent::ExportRequested(_));
                if let Intent::SymbolChanged(s) = intent {
                    self.symbol = s;
                }
                Ok(())
            }
            Err(e) => Err(e),
        }
    }

    /// Folds one fetch outcome into the session. A result tagged with
    /// any episode but the current one belongs to a discarded episode
    /// and changes nothing — neither the buffer nor the progress of the
    /// episode that replaced it. A current-episode batch or failure is
    /// applied to the loading state exactly as `record_success` and
    /// `record_failure` promise.
    pub fn apply_fetch(&mut self, episode: u64, outcome: FetchOutcome)
        requires
            old(self).wf(),
            outcome is Batch && outcome->Batch_0@.len() > 0 ==> outcome->Batch_0@.last().t_close
                <= MAX_CLOSE_MS,
        ensures
            final(self).wf(),
            final(self).episode == old(self).episode,
            final(self).symbol == old(self).symbol,
            final(self).export == old(self).export,
            episode != old(self).episode ==> *final(self) == *old(self),
            episode == old(self).episode && old(self).loading is None ==> *final(self) == *old(
                self,
            ),
            episode == old(self).episode && old(self).loading is Some ==> final(self).loading
                is Some,
            episode == old(self).episode && old(self).loading is Some && outcome is Batch
                ==> success_post(
                old(self).loading->Some_0,
                final(self).loading->Some_0,
                outcome->Batch_0@,
            ),
            episode == old(self).episode && old(self).loading is Some && outcome is Failed
                ==> failure_post(old(self).loading->Some_0, final(self).loading->Some_0),
            old(self).loading is Some ==> final(self).loading is Some
                && old(self).loading->Some_0.spec_progress_permille()
                <= final(self).loading->Some_0.spec_progress_permille(),
    {
        if episode != self.episode {
            return;
        }
        match &mut self.loading {
            None => {}
            Some(ls) => {
                match outcome {
                    FetchOutcome::Batch(b) => {
                        ls.record_success(b);
                    }
                    FetchOutcome::Failed => {
                        ls.record_failure();
                    }
                }
            }
        }
    }

    /// The next fetch boundary of the active episode, or `None` when no
    /// episode is active, the episode failed, or nothing more is to
    /// fetch. At most one request should be in flight: a caller issues
    /// this request and feeds its outcome back before asking again.
    pub fn next_request(&self) -> (r: Option<PageRequest>)
        requires
            self.wf(),
        ensures
            r is Some <==> (self.loading is Some && self.loading->Some_0.is_pending()),
            r is Some ==> r == Some(
                (PageRequest {
                    from: self.loading->Some_0.cursor,
                    limit: self.loading->Some_0.page_size,
                }),
            ),
    {
        match &self.loading {
            None => None,
            Some(ls) => ls.next_request(),
        }
    }

    /// Progress of the active episode in thousandths; 0 when no episode
    /// is active, and 1000 exactly when the active episode is complete.
    pub fn progress_permille(&self) -> (r: u64)
        requires
            self.wf(),
        ensures
            self.loading is None ==> r == 0,
            self.loading matches Some(ls) ==> r == ls.spec_progress_permille(),
            r <= 1000,
            r == 1000 <==> (self.loading is Some && self.loading->Some_0.is_complete()),
    {
        match &self.loading {
            None => 0,
            Some(ls) => ls.progress_permille(),
        }
    }

    /// Whether the active episode has recorded a failure.
    pub fn has_error(&self) -> (r: bool)
        ensures
            r == (self.loading matches Some(ls) && ls.has_error),
    {
        match &self.loading {
            None => false,
            Some(ls) => ls.has_error,
        }
    }

    /// Publishes the completed dataset: the buffer folded into its
    /// summary. `Some` exactly when the active episode is complete with
    /// a non-empty buffer — never on a pending or failed episode, and
    /// never for an episode whose window held no data at all.
    pub fn summary(&self) -> (r: Option<Data>)
        requires
            self.wf(),
        ensures
            r is Some <==> (self.loading is Some && self.loading->Some_0.is_complete()
                && self.loading->Some_0.buffer@.len() > 0),
            r is Some ==> r->Some_0.summarizes(self.loading->Some_0.buffer@),
    {
        match &self.loading {
            None => None,
            Some(ls) => {
                if ls.has_error || ls.pages_done < ls.page_count || ls.buffer.len() == 0 {
                    None
                } else {
                    let mut vals: Vec<Candle> = Vec::new();
                    let mut i: usize = 0;
                    while i < ls.buffer.len()
                        invariant
                            i <= ls.buffer@.len(),
                            vals@ == ls.buffer@.subrange(0, i as int),
                        decreases ls.buffer@.len() - i,
                    {
                        let c: Candle = ls.buffer[i];
                        vals.push(c);
                        proof {
                            assert(vals@ =~= ls.buffer@.subrange(0, (i + 1) as int));
                        }
                        i = i + 1;
                    }
                    proof {
                        assert(ls.buffer@.subrange(0, ls.buffer@.len() as int) =~= ls.buffer@);
                    }
                    Some(Data::new(vals))
                }
            }
        }
    }
}

} // verus!
