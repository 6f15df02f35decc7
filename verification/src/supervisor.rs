//! The supervisor: races a work item against its deadline under one of two
//! interchangeable strategies and produces the four-way outcome.
//!
//! The model here is deterministic: a work item's behaviour is described by
//! how long its body takes and how it finishes, and the supervisor's
//! classification is a pure function of that behaviour and the deadline.  A
//! runner that uses real execution units feeds the observed events into the
//! classification functions below; everything it decides is stated here.

use crate::outcome::{
    classify_recv, report_matches, spec_classify_recv, spec_classify_race, BodyResult, Outcome,
    RaceMessage, RecvOutcome, Report, TimeoutResult,
};
use crate::text::{dec_digits, u64_to_string};
use vstd::prelude::*;

verus! {

/// The execution-affinity contract of one supervised call: whether the work
/// item may run on a helper execution unit, or must stay on the caller's own
/// unit (because it depends on context bound to that unit).
#[derive(Debug, PartialEq, Eq, Clone, Copy)]
pub enum Affinity {
    AnyUnit,
    CallerUnit,
}

/// The two interchangeable supervision strategies.
#[derive(Debug, PartialEq, Eq, Clone, Copy)]
pub enum Strategy {
    /// Hand the body to a helper unit and block on a timed receive.
    HelperRace,
    /// Run the body on the calling unit; a watchdog enforces the deadline.
    CallerWatchdog,
}

/// The strategy is chosen by the supervisor from the affinity contract, never
/// by the work item: work that must not be relocated gets the watchdog.
pub open spec fn spec_choose_strategy(aff: Affinity) -> Strategy {
    match aff {
        Affinity::AnyUnit => Strategy::HelperRace,
        Affinity::CallerUnit => Strategy::CallerWatchdog,
    }
}

/// Choose the strategy that honours an affinity contract.
pub fn choose_strategy(aff: Affinity) -> (s: Strategy)
    ensures
        s == spec_choose_strategy(aff),
{
    match aff {
        Affinity::AnyUnit => Strategy::HelperRace,
        Affinity::CallerUnit => Strategy::CallerWatchdog,
    }
}

/// A deterministic description of how a work item's body behaves when it is
/// invoked: it finishes after a given time with a value or a panic, or its
/// execution unit breaks down without ever completing the body, or it never
/// finishes at all.
#[derive(Debug, PartialEq, Eq)]
pub enum WorkBehavior<T> {
    /// The body finishes `after_ms` milliseconds after it starts.
    Finishes { after_ms: u64, result: BodyResult<T> },
    /// The unit running the body perishes `after_ms` milliseconds in,
    /// without completing the body or delivering anything.
    BreaksChannel { after_ms: u64 },
    /// The body never finishes.
    Diverges,
}

/// What one supervised call comes to: an outcome reported to the caller, or
/// the end of the whole process, with the deadline the watchdog announced.
#[derive(Debug, PartialEq, Eq)]
pub enum Supervised<T> {
    Reported(Outcome<T>),
    ProcessAborted(u64),
}

/// Whether the body runs to completion strictly before the deadline.
pub open spec fn completes_before<T>(b: WorkBehavior<T>, deadline_ms: u64) -> bool {
    b matches WorkBehavior::Finishes { after_ms, .. } && after_ms < deadline_ms
}

/// The outcome a delivered body result maps to: the value passes through and
/// a panic payload is kept unchanged.
pub open spec fn delivered_outcome<T>(result: BodyResult<T>) -> Outcome<T> {
    match result {
        BodyResult::Value(v) => Outcome::Value(v),
        BodyResult::Panicked(p) => Outcome::Panic(p),
    }
}

/// What the timed receive of a helper-unit race yields for a given body
/// behaviour: the captured result if the body finishes in time, a
/// disconnection if the helper perishes in time, and otherwise an elapsed
/// deadline.  A body that finishes late is abandoned; its result is never
/// delivered.
pub open spec fn spec_race_message<T>(b: WorkBehavior<T>, deadline_ms: u64) -> RaceMessage<T> {
    match b {
        WorkBehavior::Finishes { after_ms, result } => if after_ms < deadline_ms {
            RaceMessage::Delivered(result)
        } else {
            RaceMessage::TimedOut
        },
        WorkBehavior::BreaksChannel { after_ms } => if after_ms < deadline_ms {
            RaceMessage::Disconnected
        } else {
            RaceMessage::TimedOut
        },
        WorkBehavior::Diverges => RaceMessage::TimedOut,
    }
}

/// The time the caller has spent when the timed receive returns: the body's
/// own finishing time when something was delivered before the deadline, and
/// the full deadline otherwise.
pub open spec fn spec_elapsed<T>(b: WorkBehavior<T>, deadline_ms: u64) -> u64 {
    match b {
        WorkBehavior::Finishes { after_ms, .. } => if after_ms < deadline_ms {
            after_ms
        } else {
            deadline_ms
        },
        WorkBehavior::BreaksChannel { after_ms } => if after_ms < deadline_ms {
            after_ms
        } else {
            deadline_ms
        },
        WorkBehavior::Diverges => deadline_ms,
    }
}

/// The outcome of a helper-unit race.
pub open spec fn spec_outcome_race<T>(b: WorkBehavior<T>, deadline_ms: u64) -> Outcome<T> {
    spec_classify_race(spec_race_message(b, deadline_ms), spec_elapsed(b, deadline_ms))
}

/// Supervise a body under the helper-unit race, on the deterministic model
/// of its behaviour: the body is handed to a helper unit inside an
/// unwind-capturing boundary and raced against the deadline.  Returns the
/// outcome and the elapsed time the caller observed.
pub fn supervise_race<T>(b: WorkBehavior<T>, deadline_ms: u64) -> (r: (Outcome<T>, u64))
    requires
        deadline_ms > 0,
    ensures
        r.0 == spec_outcome_race(b, deadline_ms),
        r.1 == spec_elapsed(b, deadline_ms),
{
    match b {
        WorkBehavior::Finishes { after_ms, result } => {
            if after_ms < deadline_ms {
                match result {
                    BodyResult::Value(v) => (Outcome::Value(v), after_ms),
                    BodyResult::Panicked(p) => (Outcome::Panic(p), after_ms),
                }
            } else {
                (Outcome::TimedOut(deadline_ms), deadline_ms)
            }
        },
        WorkBehavior::BreaksChannel { after_ms } => {
            if after_ms < deadline_ms {
                (Outcome::Disconnected, after_ms)
            } else {
                (Outcome::TimedOut(deadline_ms), deadline_ms)
            }
        },
        WorkBehavior::Diverges => (Outcome::TimedOut(deadline_ms), deadline_ms),
    }
}

/// What a supervised call under the calling-unit watchdog comes to.  The
/// body runs on the calling unit itself; on completion the completion flag
/// is set before the result is inspected, so a body finishing before the
/// deadline is reported exactly as in the race.  Any call whose body has not
/// completed when the watchdog wakes ends the whole process.
pub open spec fn spec_supervise_pinned<T>(b: WorkBehavior<T>, deadline_ms: u64) -> Supervised<T> {
    if completes_before(b, deadline_ms) {
        Supervised::Reported(delivered_outcome(b->Finishes_result))
    } else {
        Supervised::ProcessAborted(deadline_ms)
    }
}

/// Supervise a body under the calling-unit watchdog, on the deterministic
/// model of its behaviour.
pub fn supervise_pinned<T>(b: WorkBehavior<T>, deadline_ms: u64) -> (r: Supervised<T>)
    requires
        deadline_ms > 0,
    ensures
        r == spec_supervise_pinned(b, deadline_ms),
{
    match b {
        WorkBehavior::Finishes { after_ms, result } => {
            if after_ms < deadline_ms {
                match result {
                    BodyResult::Value(v) => Supervised::Reported(Outcome::Value(v)),
                    BodyResult::Panicked(p) => Supervised::Reported(Outcome::Panic(p)),
                }
            } else {
                Supervised::ProcessAborted(deadline_ms)
            }
        },
        WorkBehavior::BreaksChannel { .. } => Supervised::ProcessAborted(deadline_ms),
        WorkBehavior::Diverges => Supervised::ProcessAborted(deadline_ms),
    }
}

/// One supervised call: the strategy chosen from the affinity contract,
/// applied to the body's behaviour and the deadline.
pub open spec fn spec_supervise<T>(aff: Affinity, b: WorkBehavior<T>, deadline_ms: u64) -> Supervised<
    T,
> {
    match spec_choose_strategy(aff) {
        Strategy::HelperRace => Supervised::Reported(spec_outcome_race(b, deadline_ms)),
        Strategy::CallerWatchdog => spec_supervise_pinned(b, deadline_ms),
    }
}

/// Supervise one work item on the deterministic model of its behaviour,
/// honouring its affinity contract.  The helper-unit race always reports an
/// outcome; only the watchdog can end the process.
pub fn supervise<T>(aff: Affinity, b: WorkBehavior<T>, deadline_ms: u64) -> (r: Supervised<T>)
    requires
        deadline_ms > 0,
    ensures
        r == spec_supervise(aff, b, deadline_ms),
        aff is AnyUnit ==> r is Reported,
{
    match choose_strategy(aff) {
        Strategy::HelperRace => {
            let (o, _elapsed) = supervise_race(b, deadline_ms);
            Supervised::Reported(o)
        },
        Strategy::CallerWatchdog => supervise_pinned(b, deadline_ms),
    }
}

/// The single-writer-once completion flag shared between the calling unit
/// and the watchdog.  It starts out unset and only ever transitions to set;
/// nothing resets it.  A runner backs it with an atomic boolean whose store
/// and load keep the order stated here: the calling unit marks completion
/// before it inspects or re-raises the captured result, so a watchdog that
/// reads an unset flag knows the body had not completed at that read.
pub struct CompletionFlag {
    done: bool,
}

impl CompletionFlag {
    /// Whether the flag has been set.
    pub closed spec fn done(self) -> bool {
        self.done
    }

    /// A fresh flag for one supervised call; never reused across calls.
    pub fn new() -> (f: CompletionFlag)
        ensures
            !f.done(),
    {
        CompletionFlag { done: false }
    }

    /// Record that the body has completed, by value or by unwind.  The flag
    /// is monotonic: it is set afterwards whatever it held before.
    pub fn mark_complete(&mut self)
        ensures
            final(self).done(),
    {
        self.done = true;
    }

    /// Read the flag.
    pub fn read(&self) -> (b: bool)
        ensures
            b == self.done(),
    {
        self.done
    }
}

/// What the watchdog does when it wakes: stand down, or end the process.
#[derive(Debug, PartialEq, Eq)]
pub enum WatchdogAction {
    /// The body completed in time; exit without effect.
    StandDown,
    /// The body had not completed; write the diagnostic to the error stream
    /// and terminate the entire process.
    AbortProcess(String),
}

/// The diagnostic the watchdog emits before it ends the process: it names
/// the deadline that elapsed.
pub open spec fn spec_watchdog_diagnostic(deadline_ms: u64) -> Seq<char> {
    "watchdog: work item still running after its deadline of "@ + dec_digits(deadline_ms as nat)
        + " ms; terminating the process"@
}

/// Build the watchdog's diagnostic line.
pub fn watchdog_diagnostic(deadline_ms: u64) -> (m: String)
    ensures
        m@ == spec_watchdog_diagnostic(deadline_ms),
{
    let mut m = String::from_str("watchdog: work item still running after its deadline of ");
    let digits = u64_to_string(deadline_ms);
    m.append(digits.as_str());
    m.append(" ms; terminating the process");
    proof {
        assert(m@ =~= spec_watchdog_diagnostic(deadline_ms));
    }
    m
}

/// The decision the watchdog takes upon waking, from its read of the
/// completion flag: a set flag stands it down, an unset flag condemns the
/// process.  This is deliberately catastrophic: work that must not be
/// relocated has no cooperative cancellation point, so the only way to stop
/// it is to end the process housing it.
pub fn watchdog_decision(completed: bool, deadline_ms: u64) -> (a: WatchdogAction)
    ensures
        completed ==> a == WatchdogAction::StandDown,
        !completed ==> (a matches WatchdogAction::AbortProcess(m) && m@
            == spec_watchdog_diagnostic(deadline_ms)),
{
    if completed {
        WatchdogAction::StandDown
    } else {
        WatchdogAction::AbortProcess(watchdog_diagnostic(deadline_ms))
    }
}

/// What the timed receive yields when the helper runs the body with no
/// unwind-capturing boundary: a panic kills the helper before it can send,
/// so the receiver sees a disconnection instead of a delivered payload.
pub open spec fn spec_recv_outcome<T>(b: WorkBehavior<T>, timeout_ms: u64) -> RecvOutcome<T> {
    match b {
        WorkBehavior::Finishes { after_ms, result } => if after_ms < timeout_ms {
            match result {
                BodyResult::Value(v) => RecvOutcome::Received(v),
                BodyResult::Panicked(_) => RecvOutcome::Disconnected,
            }
        } else {
            RecvOutcome::Timeout
        },
        WorkBehavior::BreaksChannel { after_ms } => if after_ms < timeout_ms {
            RecvOutcome::Disconnected
        } else {
            RecvOutcome::Timeout
        },
        WorkBehavior::Diverges => RecvOutcome::Timeout,
    }
}

/// The three-way classification of the plain timeout helper: the body is
/// handed to a helper unit bare, so any panic surfaces as a disconnection,
/// which is classified as `Panic`.
pub open spec fn spec_execute_with_timeout<T>(b: WorkBehavior<T>, timeout_ms: u64) -> TimeoutResult<
    T,
> {
    spec_classify_recv(spec_recv_outcome(b, timeout_ms))
}

/// Run one body under the plain helper-unit timeout, on the deterministic
/// model of its behaviour: the helper sends the bare result over a one-shot
/// rendezvous and the caller classifies what the timed receive yields.
pub fn execute_with_timeout<T>(b: WorkBehavior<T>, timeout_ms: u64) -> (r: TimeoutResult<T>)
    requires
        timeout_ms > 0,
    ensures
        r == spec_execute_with_timeout(b, timeout_ms),
{
    let received = match b {
        WorkBehavior::Finishes { after_ms, result } => {
            if after_ms < timeout_ms {
                match result {
                    BodyResult::Value(v) => RecvOutcome::Received(v),
                    BodyResult::Panicked(_) => RecvOutcome::Disconnected,
                }
            } else {
                RecvOutcome::Timeout
            }
        },
        WorkBehavior::BreaksChannel { after_ms } => {
            if after_ms < timeout_ms {
                RecvOutcome::Disconnected
            } else {
                RecvOutcome::Timeout
            }
        },
        WorkBehavior::Diverges => RecvOutcome::Timeout,
    };
    classify_recv(received)
}

/// The phases of one supervised call.
#[derive(Debug, PartialEq, Eq, Clone, Copy)]
pub enum Phase {
    Pending,
    Running,
    Completed,
    TimedOut,
    Aborted,
}

/// The transitions each strategy admits: a call starts, runs, and then
/// either completes, or times out (helper-unit race only), or ends the
/// process (calling-unit watchdog only).
pub open spec fn phase_step_allowed(s: Strategy, from: Phase, to: Phase) -> bool {
    match (from, to) {
        (Phase::Pending, Phase::Running) => true,
        (Phase::Running, Phase::Completed) => true,
        (Phase::Running, Phase::TimedOut) => s is HelperRace,
        (Phase::Running, Phase::Aborted) => s is CallerWatchdog,
        _ => false,
    }
}

/// The phase a supervised call ends in.
pub open spec fn final_phase<T>(r: Supervised<T>) -> Phase {
    match r {
        Supervised::Reported(Outcome::TimedOut(_)) => Phase::TimedOut,
        Supervised::Reported(_) => Phase::Completed,
        Supervised::ProcessAborted(_) => Phase::Aborted,
    }
}

/// Every supervised call follows its strategy's state machine: from pending
/// through running to an admitted end phase.  In particular the watchdog
/// strategy never ends in a reported timeout, and the race never ends the
/// process.
pub proof fn lemma_supervise_respects_state_machine<T>(
    aff: Affinity,
    b: WorkBehavior<T>,
    deadline_ms: u64,
)
    ensures
        phase_step_allowed(spec_choose_strategy(aff), Phase::Pending, Phase::Running),
        phase_step_allowed(
            spec_choose_strategy(aff),
            Phase::Running,
            final_phase(spec_supervise(aff, b, deadline_ms)),
        ),
{
}

/// A body that finishes strictly before the deadline is classified by how
/// it finished — its value passes through, its panic keeps its payload —
/// and, under either strategy, an outcome is reported.  Under the
/// helper-unit race the elapsed time the caller observes is the body's own
/// finishing time, strictly under the deadline.
pub proof fn lemma_prompt_body_classified<T>(
    aff: Affinity,
    after_ms: u64,
    result: BodyResult<T>,
    deadline_ms: u64,
)
    requires
        after_ms < deadline_ms,
    ensures
        spec_supervise(aff, (WorkBehavior::Finishes { after_ms, result }), deadline_ms)
            == Supervised::Reported(delivered_outcome(result)),
        spec_elapsed((WorkBehavior::Finishes { after_ms, result }), deadline_ms) == after_ms,
        spec_elapsed((WorkBehavior::Finishes { after_ms, result }), deadline_ms) < deadline_ms,
{
}

/// A body that panics before the deadline has its payload re-surfaced
/// content-identical: the outcome carries the very payload the body raised,
/// and the only report that outcome admits re-raises it unchanged.
pub proof fn lemma_panic_payload_preserved<T>(
    aff: Affinity,
    after_ms: u64,
    payload: String,
    deadline_ms: u64,
    budget_ms: u64,
    r: Report<T>,
)
    requires
        after_ms < deadline_ms,
        report_matches(
            spec_supervise(
                aff,
                (WorkBehavior::Finishes { after_ms, result: BodyResult::<T>::Panicked(payload) }),
                deadline_ms,
            )->Reported_0,
            budget_ms,
            r,
        ),
    ensures
        spec_supervise(
            aff,
            (WorkBehavior::Finishes { after_ms, result: BodyResult::<T>::Panicked(payload) }),
            deadline_ms,
        ) == Supervised::<T>::Reported(Outcome::Panic(payload)),
        r == Report::<T>::Reraise(payload),
{
}

/// Under the helper-unit race, a body that sleeps past the deadline is
/// reported as timed out, with the full deadline as the observed elapsed
/// time.
pub proof fn lemma_late_body_times_out<T>(after_ms: u64, result: BodyResult<T>, deadline_ms: u64)
    requires
        after_ms >= deadline_ms,
    ensures
        spec_supervise(
            Affinity::AnyUnit,
            (WorkBehavior::Finishes { after_ms, result }),
            deadline_ms,
        ) == Supervised::<T>::Reported(Outcome::TimedOut(deadline_ms)),
{
}

/// An abandoned body's eventual completion has no observable effect: two
/// late bodies that differ only in what they would have delivered are
/// supervised to the very same outcome.
pub proof fn lemma_abandoned_result_invisible<T>(
    after_ms: u64,
    r1: BodyResult<T>,
    r2: BodyResult<T>,
    deadline_ms: u64,
)
    requires
        after_ms >= deadline_ms,
    ensures
        spec_supervise(
            Affinity::AnyUnit,
            (WorkBehavior::Finishes { after_ms, result: r1 }),
            deadline_ms,
        ) == spec_supervise(
            Affinity::AnyUnit,
            (WorkBehavior::Finishes { after_ms, result: r2 }),
            deadline_ms,
        ),
{
}

/// Under the calling-unit watchdog, a body that has not completed when the
/// deadline elapses ends the whole process: no outcome is ever reported for
/// that call.
pub proof fn lemma_pinned_overrun_aborts<T>(b: WorkBehavior<T>, deadline_ms: u64)
    requires
        !completes_before(b, deadline_ms),
    ensures
        spec_supervise(Affinity::CallerUnit, b, deadline_ms) == Supervised::<T>::ProcessAborted(
            deadline_ms,
        ),
        !(spec_supervise(Affinity::CallerUnit, b, deadline_ms) is Reported),
{
}

/// The ordering guarantees of the helper-unit race: an outcome that passes
/// a value or a panic through means the body ran to completion strictly
/// before the deadline was observed to elapse, and a timeout means the
/// whole deadline passed with no delivered result — though the abandoned
/// work may still complete later.
pub proof fn lemma_race_ordering<T>(b: WorkBehavior<T>, deadline_ms: u64)
    ensures
        spec_outcome_race(b, deadline_ms) is Value || spec_outcome_race(b, deadline_ms) is Panic
            ==> completes_before(b, deadline_ms),
        spec_outcome_race(b, deadline_ms) is TimedOut ==> !completes_before(b, deadline_ms)
            && spec_elapsed(b, deadline_ms) == deadline_ms,
{
}

/// Supervision is idempotent: two supervised calls with the same
/// deterministic body behaviour, the same affinity and the same deadline
/// are classified identically.
pub proof fn lemma_supervise_deterministic<T>(
    aff: Affinity,
    b: WorkBehavior<T>,
    deadline_ms: u64,
    r1: Supervised<T>,
    r2: Supervised<T>,
)
    requires
        r1 == spec_supervise(aff, b, deadline_ms),
        r2 == spec_supervise(aff, b, deadline_ms),
    ensures
        r1 == r2,
{
}

} // verus!
