//! The polling loop's decisions: what one tick stores and how long the loop
//! sleeps before the next one.
//!
//! The loop itself belongs to the caller, who samples the sensor and sleeps.
//! `Cadence::tick` is the rule of one tick: it takes the outcome of the
//! sample, updates the slot and gives the delay to sleep. `PollingLoop` is
//! the same rule as a state machine that tells the caller what to do next.
//! A failed sample is never fatal and never retried at once: the loop waits
//! the shorter retry interval and samples again, for as long as it runs.

use vstd::prelude::*;
use crate::reading::{Reading, SensorError};
use crate::shared::SharedReading;

verus! {

/// The sleep after a successful sample, in milliseconds.
pub const STEADY_INTERVAL_MS: u64 = 1000;

/// The sleep after a failed sample, in milliseconds.
pub const RETRY_INTERVAL_MS: u64 = 250;

/// The two sleeps of the polling loop and the shortest gap the sensor
/// tolerates between two samples, all in milliseconds.
///
/// Every value of this type is well formed: the retry interval is shorter
/// than the steady interval, and neither is below the sensor's minimum gap.
#[derive(Clone, Copy, Debug)]
pub struct Cadence {
    steady_ms: u64,
    retry_ms: u64,
    min_gap_ms: u64,
}

/// What the intervals of a cadence must satisfy.
pub open spec fn intervals_ok(steady_ms: u64, retry_ms: u64, min_gap_ms: u64) -> bool {
    min_gap_ms <= retry_ms && retry_ms < steady_ms
}

/// The slot's content after a tick with the given outcome: a success
/// replaces it, a failure leaves it as it was.
pub open spec fn slot_after_tick(
    slot: Option<Reading>,
    outcome: Result<Reading, SensorError>,
) -> Option<Reading> {
    match outcome {
        Ok(r) => Some(r),
        Err(_) => slot,
    }
}

/// The slot's content after the first `n` of `outcomes`, one tick each.
pub open spec fn slot_after_ticks(
    slot: Option<Reading>,
    outcomes: Seq<Result<Reading, SensorError>>,
    n: nat,
) -> Option<Reading>
    decreases n,
{
    if n == 0 || n > outcomes.len() {
        slot
    } else {
        slot_after_tick(slot_after_ticks(slot, outcomes, (n - 1) as nat), outcomes[n - 1])
    }
}

impl Cadence {
    /// The sleep after a successful sample.
    pub closed spec fn steady(&self) -> u64 {
        self.steady_ms
    }

    /// The sleep after a failed sample.
    pub closed spec fn retry(&self) -> u64 {
        self.retry_ms
    }

    /// The shortest gap between two samples that the sensor tolerates.
    pub closed spec fn min_gap(&self) -> u64 {
        self.min_gap_ms
    }

    /// Well-formedness, which every constructed value has.
    #[verifier::type_invariant]
    pub open spec fn wf(&self) -> bool {
        intervals_ok(self.steady(), self.retry(), self.min_gap())
    }

    /// The sleep that follows a tick with the given outcome.
    pub open spec fn delay_after(&self, success: bool) -> u64 {
        if success {
            self.steady()
        } else {
            self.retry()
        }
    }

    /// A cadence with the given intervals, if they fit together: the minimum
    /// gap at most the retry interval, the retry interval below the steady one.
    pub fn new(steady_ms: u64, retry_ms: u64, min_gap_ms: u64) -> (cadence: Option<Cadence>)
        ensures
            cadence.is_some() <==> intervals_ok(steady_ms, retry_ms, min_gap_ms),
            cadence matches Some(c) ==> c.wf() && c.steady() == steady_ms && c.retry() == retry_ms
                && c.min_gap() == min_gap_ms,
    {
        if min_gap_ms <= retry_ms && retry_ms < steady_ms {
            Some(Cadence { steady_ms, retry_ms, min_gap_ms })
        } else {
            None
        }
    }

    /// The standard cadence, one second after a success and a quarter of a
    /// second after a failure, for a sensor with the given minimum gap. There
    /// is none for a sensor that needs more than the retry interval.
    pub fn standard(min_gap_ms: u64) -> (cadence: Option<Cadence>)
        ensures
            cadence.is_some() <==> min_gap_ms <= RETRY_INTERVAL_MS,
            cadence matches Some(c) ==> c.wf() && c.steady() == STEADY_INTERVAL_MS && c.retry()
                == RETRY_INTERVAL_MS && c.min_gap() == min_gap_ms,
    {
        Cadence::new(STEADY_INTERVAL_MS, RETRY_INTERVAL_MS, min_gap_ms)
    }

    /// The sleep after a successful sample, in milliseconds.
    pub fn steady_ms(&self) -> (ms: u64)
        ensures
            ms == self.steady(),
    {
        self.steady_ms
    }

    /// The sleep after a failed sample, in milliseconds.
    pub fn retry_ms(&self) -> (ms: u64)
        ensures
            ms == self.retry(),
    {
        self.retry_ms
    }

    /// The sensor's minimum gap between two samples, in milliseconds.
    pub fn min_gap_ms(&self) -> (ms: u64)
        ensures
            ms == self.min_gap(),
    {
        self.min_gap_ms
    }

    /// One tick of the polling loop, after the sample was taken.
    ///
    /// A success is stored in `cell` and the steady interval is returned. A
    /// failure leaves `cell` exactly as it was and the retry interval is
    /// returned. Either way the delay is at least the sensor's minimum gap.
    pub fn tick(
        &self,
        cell: &mut SharedReading,
        outcome: Result<Reading, SensorError>,
    ) -> (delay_ms: u64)
        ensures
            final(cell)@ == slot_after_tick(old(cell)@, outcome),
            outcome.is_err() ==> *final(cell) == *old(cell),
            delay_ms == self.delay_after(outcome.is_ok()),
            delay_ms >= self.min_gap(),
    {
        proof {
            use_type_invariant(self);
        }
        match outcome {
            Ok(reading) => {
                cell.set(reading);
                self.steady_ms
            },
            Err(_) => self.retry_ms,
        }
    }

    /// Whatever the outcome of a tick, the sleep before the next sample is at
    /// least the sensor's minimum gap, and a failure is followed by a strictly
    /// shorter sleep than a success.
    pub proof fn lemma_delay_respects_floor(&self, success: bool)
        requires
            self.wf(),
        ensures
            self.delay_after(success) >= self.min_gap(),
            self.delay_after(false) < self.delay_after(true),
    {
    }
}

/// Where the polling loop stands.
#[derive(Clone, Copy, Debug, PartialEq, Eq, Structural)]
pub enum Phase {
    /// A sample is being taken. The loop starts here and comes back here
    /// with every tick.
    Sampling,
    /// The loop sleeps until the next tick.
    Idle,
}

/// What the caller reports back to the loop.
#[derive(Clone, Copy, Debug)]
pub enum Event {
    /// The sample returned, with a reading or a fault.
    Sampled(Result<Reading, SensorError>),
    /// The sleep is over.
    Woke,
}

/// What the loop asks the caller to do next.
#[derive(Clone, Copy, Debug, PartialEq, Eq, Structural)]
pub enum Action {
    /// Take a sample and report `Event::Sampled`.
    Sample,
    /// Sleep for so many milliseconds and report `Event::Woke`.
    Sleep(u64),
}

/// Whether `event` is the one the loop waits for in `phase`.
pub open spec fn in_turn(phase: Phase, event: Event) -> bool {
    match (phase, event) {
        (Phase::Sampling, Event::Sampled(_)) => true,
        (Phase::Idle, Event::Woke) => true,
        _ => false,
    }
}

/// The phase that follows `phase` on `event`: the other one if the event is
/// in turn, the same one if it is not.
pub open spec fn phase_after(phase: Phase, event: Event) -> Phase {
    match (phase, event) {
        (Phase::Sampling, Event::Sampled(_)) => Phase::Idle,
        (Phase::Idle, Event::Woke) => Phase::Sampling,
        _ => phase,
    }
}

/// The slot's content after `event`: only a sample that returned in turn
/// with a reading changes it.
pub open spec fn slot_after_event(phase: Phase, slot: Option<Reading>, event: Event) -> Option<
    Reading,
> {
    match (phase, event) {
        (Phase::Sampling, Event::Sampled(outcome)) => slot_after_tick(slot, outcome),
        _ => slot,
    }
}

/// What the loop asks for on `event`, or `None` for an event out of turn.
pub open spec fn action_on(cadence: Cadence, phase: Phase, event: Event) -> Option<Action> {
    match (phase, event) {
        (Phase::Sampling, Event::Sampled(outcome)) => Some(
            Action::Sleep(cadence.delay_after(outcome.is_ok())),
        ),
        (Phase::Idle, Event::Woke) => Some(Action::Sample),
        _ => None,
    }
}

/// The polling loop as a state machine. It has no terminal state: it
/// alternates between sampling and sleeping for as long as the caller
/// drives it.
#[derive(Clone, Copy, Debug)]
pub struct PollingLoop {
    cadence: Cadence,
    phase: Phase,
}

impl PollingLoop {
    /// The cadence the loop runs on.
    pub closed spec fn cadence(&self) -> Cadence {
        self.cadence
    }

    /// Where the loop stands.
    pub closed spec fn phase(&self) -> Phase {
        self.phase
    }

    /// A loop about to take its first sample.
    pub fn new(cadence: Cadence) -> (polling: PollingLoop)
        ensures
            polling.cadence() == cadence,
            polling.phase() == Phase::Sampling,
    {
        PollingLoop { cadence, phase: Phase::Sampling }
    }

    /// Where the loop stands.
    pub fn current_phase(&self) -> (phase: Phase)
        ensures
            phase == self.phase(),
    {
        self.phase
    }

    /// Takes one event and says what to do next.
    ///
    /// While sampling, the outcome of the sample is stored as `Cadence::tick`
    /// does, and the loop asks for the sleep that follows it. While idle, the
    /// end of the sleep makes the loop ask for the next sample. An event out
    /// of turn changes nothing and is answered with `None`.
    pub fn step(&mut self, cell: &mut SharedReading, event: Event) -> (action: Option<Action>)
        ensures
            final(self).cadence() == old(self).cadence(),
            final(self).phase() == phase_after(old(self).phase(), event),
            final(cell)@ == slot_after_event(old(self).phase(), old(cell)@, event),
            action == action_on(old(self).cadence(), old(self).phase(), event),
            action.is_some() <==> in_turn(old(self).phase(), event),
            action matches Some(Action::Sleep(ms)) ==> ms >= old(self).cadence().min_gap(),
    {
        match (self.phase, event) {
            (Phase::Sampling, Event::Sampled(outcome)) => {
                let delay_ms: u64 = self.cadence.tick(cell, outcome);
                self.phase = Phase::Idle;
                Some(Action::Sleep(delay_ms))
            },
            (Phase::Idle, Event::Woke) => {
                self.phase = Phase::Sampling;
                Some(Action::Sample)
            },
            _ => None,
        }
    }
}

/// The loop never ends and never samples twice without a sleep between.
/// In either phase some event is in turn; handling it leads to the other
/// phase; and the request for a sample is only ever the answer to the end
/// of a sleep, which was at least the sensor's minimum gap long.
pub proof fn lemma_loop_alternates(cadence: Cadence, phase: Phase, event: Event)
    requires
        cadence.wf(),
    ensures
        exists|e: Event| in_turn(phase, e),
        in_turn(phase, event) ==> phase_after(phase, event) != phase,
        action_on(cadence, phase, event) == Some(Action::Sample) ==> phase == Phase::Idle && event
            == Event::Woke,
        action_on(cadence, phase, event) matches Some(Action::Sleep(ms)) ==> phase
            == Phase::Sampling && ms >= cadence.min_gap(),
{
    cadence.lemma_delay_respects_floor(true);
    cadence.lemma_delay_respects_floor(false);
    match phase {
        Phase::Sampling => {
            assert(in_turn(phase, Event::Sampled(Err(SensorError::Timeout))));
        },
        Phase::Idle => {
            assert(in_turn(phase, Event::Woke));
        },
    }
}

/// The minimum gap holds over a whole run. Let `starts[i]` be the instant at which
/// the sample of tick `i` begins and `took[i]` the time that sample needed.
/// If each tick begins once the previous sample has returned and the delay
/// that `tick` gave for it has been slept, then any two consecutive samples
/// begin at least the sensor's minimum gap apart.
pub proof fn lemma_samples_keep_their_distance(
    cadence: Cadence,
    outcomes: Seq<Result<Reading, SensorError>>,
    starts: Seq<nat>,
    took: Seq<nat>,
    i: int,
)
    requires
        cadence.wf(),
        starts.len() == outcomes.len(),
        took.len() == outcomes.len(),
        forall|j: int|
            0 <= j && j + 1 < outcomes.len() ==> #[trigger] starts[j + 1] == starts[j] + took[j]
                + cadence.delay_after(outcomes[j].is_ok()),
        0 <= i,
        i + 1 < outcomes.len(),
    ensures
        starts[i + 1] - starts[i] >= cadence.min_gap(),
{
    cadence.lemma_delay_respects_floor(outcomes[i].is_ok());
}

/// A tick whose sample failed leaves the slot's content as it was before the
/// tick, whatever the fault.
pub proof fn lemma_failure_leaves_slot(slot: Option<Reading>, fault: SensorError)
    ensures
        slot_after_tick(slot, Err(fault)) == slot,
{
}

/// The slot always holds the most recent success. After the first `n`
/// outcomes of a run it is the reading of the last success among them, at
/// position `last`, however many failures followed it.
pub proof fn lemma_slot_holds_latest_success(
    slot: Option<Reading>,
    outcomes: Seq<Result<Reading, SensorError>>,
    n: nat,
    last: nat,
)
    requires
        n <= outcomes.len(),
        last < n,
        outcomes[last as int].is_ok(),
        forall|j: int| last < j < n ==> outcomes[j].is_err(),
    ensures
        slot_after_ticks(slot, outcomes, n) == Some(outcomes[last as int].unwrap()),
    decreases n,
{
    if n - 1 > last {
        lemma_slot_holds_latest_success(slot, outcomes, (n - 1) as nat, last);
    }
}

/// Until a sample succeeds the slot keeps its initial content: after a run
/// of failures only, it is what it was at the start.
pub proof fn lemma_failures_only_keep_slot(
    slot: Option<Reading>,
    outcomes: Seq<Result<Reading, SensorError>>,
    n: nat,
)
    requires
        n <= outcomes.len(),
        forall|j: int| 0 <= j < n ==> outcomes[j].is_err(),
    ensures
        slot_after_ticks(slot, outcomes, n) == slot,
    decreases n,
{
    if n > 0 {
        lemma_failures_only_keep_slot(slot, outcomes, (n - 1) as nat);
    }
}

} // verus!
