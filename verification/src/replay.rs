//! The replay engine: batch sizing and the run's state machine.
//!
//! A run pulls messages in bounded groups: one synchronous probe receive
//! first, so that systemic failures surface before any fan-out, then full
//! batches of up to [`BATCH_SIZE`] concurrent receives, then one remainder
//! batch. The engine decides what to do next and what to forward or
//! discard; the caller performs the queue traffic and hands the received
//! messages back.

use vstd::prelude::*;
use crate::error::ReplayError;
use crate::filter::{MessageFilter, MessageFilterStats, add_seq, cleared};
use crate::message::Message;
use crate::selector::{compile, rejects_pattern};

verus! {

/// The upper bound on concurrent in-flight receives in one batch.
pub const BATCH_SIZE: u64 = 100;

/// The options of a single replay run. `max_messages == None` means
/// unbounded; the selector, when given, turns deduplication on.
pub struct ReplayOpts {
    pub max_messages: Option<u64>,
    pub selector: Option<String>,
}

/// Where the engine replays from and to.
pub struct SqsReplayOptions {
    pub source: String,
    pub dest: String,
    pub region: Option<String>,
}

/// What the caller must do next.
#[derive(Clone, Copy, Debug, PartialEq, Eq, Structural)]
pub enum Step {
    /// Perform one receive against the source; a failure is fatal.
    Probe,
    /// Perform this many concurrent receives against the source,
    /// dropping failed ones, and hand back everything received.
    Receive(u64),
    /// The run is over; report the stats.
    Finished,
}

/// Where the run stands.
#[derive(Clone, Copy, Debug, PartialEq, Eq, Structural)]
pub enum Phase {
    Probe,
    Full,
    Remainder,
    Done,
}

/// The receive budget once one receive is reserved for the probe.
/// Negative exactly when the run is capped at zero messages.
pub open spec fn spec_budget(max_messages: Option<u64>) -> int {
    (match max_messages {
        Some(m) => m as int,
        None => u64::MAX as int,
    }) - 1
}

/// The size of a full batch: the budget clamped to `1..=BATCH_SIZE`.
pub open spec fn spec_batch_size(max_messages: Option<u64>) -> int {
    let b = spec_budget(max_messages);
    if b < 1 {
        1
    } else if b > BATCH_SIZE {
        BATCH_SIZE as int
    } else {
        b
    }
}

/// How many full batches the budget pays for.
pub open spec fn spec_full_batches(max_messages: Option<u64>) -> int {
    if spec_budget(max_messages) < 0 {
        0
    } else {
        spec_budget(max_messages) / spec_batch_size(max_messages)
    }
}

/// What is left of the budget after the full batches.
pub open spec fn spec_remainder(max_messages: Option<u64>) -> int {
    if spec_budget(max_messages) < 0 {
        0
    } else {
        spec_budget(max_messages) % spec_batch_size(max_messages)
    }
}

/// Where a run starts: done at once when the cap is zero, else at the probe.
pub open spec fn spec_initial_phase(max_messages: Option<u64>) -> Phase {
    if spec_budget(max_messages) < 0 {
        Phase::Done
    } else {
        Phase::Probe
    }
}

/// One replay run in progress: the filter plus the remaining batch plan.
pub struct ReplaySession {
    pub filter: MessageFilter,
    pub phase: Phase,
    pub batch_size: u64,
    pub full_left: u64,
    pub remainder: u64,
}

/// What a batch asks the caller to do: forward these messages to the
/// destination, in order, deleting each from the source as it goes; then
/// delete the discarded duplicates from the source, best effort.
pub struct BatchOutcome {
    pub forward: Vec<Message>,
    pub discard: Vec<Message>,
}

/// The phase after a batch lands.
pub open spec fn spec_advance(s: ReplaySession) -> Phase {
    match s.phase {
        Phase::Probe => if s.full_left > 0 {
            Phase::Full
        } else if s.remainder > 0 {
            Phase::Remainder
        } else {
            Phase::Done
        },
        Phase::Full => if s.full_left - 1 > 0 {
            Phase::Full
        } else if s.remainder > 0 {
            Phase::Remainder
        } else {
            Phase::Done
        },
        Phase::Remainder => Phase::Done,
        Phase::Done => Phase::Done,
    }
}

/// A field-for-field copy of a message list.
fn clone_messages(v: &Vec<Message>) -> (r: Vec<Message>)
    ensures
        r@ == v@,
{
    let mut r: Vec<Message> = Vec::new();
    let n: usize = v.len();
    let mut i: usize = 0;
    while i < n
        invariant
            0 <= i <= n,
            n == v@.len(),
            r@ == v@.take(i as int),
        decreases n - i,
    {
        r.push(v[i].duplicate());
        proof {
            assert(v@.take(i as int + 1) =~= v@.take(i as int).push(v@[i as int]));
        }
        i += 1;
    }
    proof {
        assert(v@.take(n as int) =~= v@);
    }
    r
}

impl ReplaySession {
    /// The plan numbers a session must keep to.
    pub open spec fn wf(&self) -> bool {
        &&& 1 <= self.batch_size <= BATCH_SIZE
        &&& self.remainder < self.batch_size
        &&& self.phase is Full ==> self.full_left >= 1
        &&& self.phase is Remainder ==> self.remainder >= 1
    }

    /// What the caller must do next, as a function of the phase.
    pub open spec fn spec_step(&self) -> Step {
        match self.phase {
            Phase::Probe => Step::Probe,
            Phase::Full => Step::Receive(self.batch_size),
            Phase::Remainder => Step::Receive(self.remainder),
            Phase::Done => Step::Finished,
        }
    }

    pub fn next_step(&self) -> (s: Step)
        ensures
            s == self.spec_step(),
    {
        match self.phase {
            Phase::Probe => Step::Probe,
            Phase::Full => Step::Receive(self.batch_size),
            Phase::Remainder => Step::Receive(self.remainder),
            Phase::Done => Step::Finished,
        }
    }

    /// The run's totals so far.
    pub fn stats(&self) -> (s: MessageFilterStats)
        ensures
            s.total == self.filter@.total,
            s.deduped == self.filter@.deduped,
    {
        self.filter.stats
    }

    /// Lands the messages of one receive round: clears the per-batch
    /// buffers, filters the round, and says what to forward and what to
    /// discard. The probe round discards nothing — its duplicates, if any,
    /// stay on the source queue for a later round to meet again.
    pub fn on_received(&mut self, messages: Vec<Message>) -> (out: BatchOutcome)
        requires
            old(self).wf(),
            !(old(self).phase is Done),
            old(self).filter.stats.total + messages@.len() <= u64::MAX,
            old(self).filter.stats.deduped + messages@.len() <= u64::MAX,
        ensures
            final(self).wf(),
            final(self).filter@ == add_seq(cleared(old(self).filter@), messages@),
            final(self).batch_size == old(self).batch_size,
            final(self).remainder == old(self).remainder,
            final(self).full_left == (if old(self).phase is Full {
                old(self).full_left - 1
            } else {
                old(self).full_left as int
            }),
            final(self).phase == spec_advance(*old(self)),
            out.forward@ == final(self).filter@.results,
            old(self).phase is Probe ==> out.discard@ == Seq::<Message>::empty(),
            !(old(self).phase is Probe) ==> out.discard@ == final(self).filter@.skipped,
    {
        self.filter.clear();
        proof {
            assert(self.filter@ == cleared(old(self).filter@));
        }
        self.filter.add(messages);
        let forward = clone_messages(&self.filter.results);
        let discard = match self.phase {
            Phase::Probe => Vec::new(),
            _ => clone_messages(&self.filter.skipped),
        };
        match self.phase {
            Phase::Probe => {
                self.phase = if self.full_left > 0 {
                    Phase::Full
                } else if self.remainder > 0 {
                    Phase::Remainder
                } else {
                    Phase::Done
                };
            },
            Phase::Full => {
                self.full_left = self.full_left - 1;
                if self.full_left == 0 {
                    self.phase = if self.remainder > 0 {
                        Phase::Remainder
                    } else {
                        Phase::Done
                    };
                }
            },
            Phase::Remainder => {
                self.phase = Phase::Done;
            },
            Phase::Done => {},
        }
        BatchOutcome { forward, discard }
    }
}

/// The replay engine for one source/destination pair.
pub struct SqsReplay {
    pub source: String,
    pub dest: String,
    pub region: Option<String>,
}

impl SqsReplay {
    pub fn new(opts: SqsReplayOptions) -> (r: SqsReplay)
        ensures
            r.source == opts.source,
            r.dest == opts.dest,
            r.region == opts.region,
    {
        SqsReplay { source: opts.source, dest: opts.dest, region: opts.region }
    }

    /// Begins a replay run: validates the selector and lays out the batch
    /// plan. A bad selector is rejected here, before any queue traffic; a
    /// zero message cap yields a session that is finished at once.
    pub fn replay(&self, opts: ReplayOpts) -> (r: Result<ReplaySession, ReplayError>)
        ensures
            opts.selector matches Some(p) ==> (r is Err <==> rejects_pattern(p@)),
            opts.selector is None ==> r is Ok,
            r matches Err(e) ==> e is BadSelector,
            r matches Ok(s) ==> {
                &&& s.wf()
                &&& opts.selector matches Some(p) ==> s.filter@.pat == Some(p@)
                &&& opts.selector is None ==> s.filter@.pat is None
                &&& s.filter@.seen == Set::<Seq<char>>::empty()
                &&& s.filter@.results == Seq::<Message>::empty()
                &&& s.filter@.skipped == Seq::<Message>::empty()
                &&& s.filter@.total == 0
                &&& s.filter@.deduped == 0
                &&& s.phase == spec_initial_phase(opts.max_messages)
                &&& s.batch_size == spec_batch_size(opts.max_messages)
                &&& s.full_left == spec_full_batches(opts.max_messages)
                &&& s.remainder == spec_remainder(opts.max_messages)
            },
    {
        let selector = match compile(opts.selector) {
            Ok(sel) => sel,
            Err(e) => {
                return Err(e);
            },
        };
        let filter = MessageFilter::new(selector);
        let mut phase = Phase::Probe;
        let mut batch_size: u64 = 1;
        let mut full_left: u64 = 0;
        let mut remainder: u64 = 0;
        match opts.max_messages {
            Some(0) => {
                phase = Phase::Done;
            },
            Some(m) => {
                let budget = m - 1;
                batch_size = if budget < 1 {
                    1
                } else if budget > BATCH_SIZE {
                    BATCH_SIZE
                } else {
                    budget
                };
                full_left = budget / batch_size;
                remainder = budget % batch_size;
            },
            None => {
                let budget = u64::MAX - 1;
                batch_size = BATCH_SIZE;
                full_left = budget / BATCH_SIZE;
                remainder = budget % BATCH_SIZE;
            },
        }
        Ok(ReplaySession { filter, phase, batch_size, full_left, remainder })
    }
}

} // verus!
