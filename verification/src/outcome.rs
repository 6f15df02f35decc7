//! Outcome classification: the four-way result of a supervised call and the
//! pure mappings that produce it from what the race delivered.

use crate::text::{contains_seq, dec_digits, lemma_concat_contains_middle, u64_to_string};
use vstd::prelude::*;

verus! {

/// How a work item's body finished: a typed value, or an unwind signal
/// carrying its payload (at minimum a message), captured at the boundary
/// around the body.
#[derive(Debug, PartialEq, Eq)]
pub enum BodyResult<T> {
    Value(T),
    Panicked(String),
}

/// The four-way classification of a supervised call, produced exactly once
/// per call.
#[derive(Debug, PartialEq, Eq)]
pub enum Outcome<T> {
    /// The body finished in time with a value.
    Value(T),
    /// The body raised an unwind signal in time; the payload is carried
    /// unchanged.
    Panic(String),
    /// The deadline elapsed with no delivered result; carries the elapsed
    /// time in milliseconds as observed by the caller.
    TimedOut(u64),
    /// The helper unit died without delivering a result.
    Disconnected,
}

/// What the supervisor tells the host framework to do with a finished call.
#[derive(Debug, PartialEq, Eq)]
pub enum Report<T> {
    /// Pass the value through as a success.
    Pass(T),
    /// Re-raise the original unwind payload, content-identical, so that an
    /// "expect failure with message M" check sees the body's own text.
    Reraise(String),
    /// Report a synthesized failure message.
    Fail(String),
}

/// What a supervised call to a helper-unit race hands back to its caller:
/// the plain three-way classification used by the timeout helper.
#[derive(Debug, PartialEq, Eq)]
pub enum TimeoutResult<T> {
    /// The deadline elapsed with no delivered result.
    Timeout,
    /// The helper unit died without delivering a result.
    Panic,
    /// The body finished in time and produced a value.
    Result(T),
}

/// What a timed receive on the rendezvous channel yields: a value delivered
/// in time, an elapsed deadline, or a sender that died without sending.
#[derive(Debug, PartialEq, Eq)]
pub enum RecvOutcome<T> {
    Received(T),
    Timeout,
    Disconnected,
}

/// The classification a timed receive maps to.  A disconnected sender means
/// the helper unit itself perished mid-flight, which this plain helper (with
/// no unwind-capturing boundary around the body) reports as a panic.
pub open spec fn spec_classify_recv<T>(r: RecvOutcome<T>) -> TimeoutResult<T> {
    match r {
        RecvOutcome::Received(t) => TimeoutResult::Result(t),
        RecvOutcome::Timeout => TimeoutResult::Timeout,
        RecvOutcome::Disconnected => TimeoutResult::Panic,
    }
}

/// Classify the result of the timed receive that ends a helper-unit race.
pub fn classify_recv<T>(r: RecvOutcome<T>) -> (res: TimeoutResult<T>)
    ensures
        res == spec_classify_recv(r),
{
    match r {
        RecvOutcome::Received(t) => TimeoutResult::Result(t),
        RecvOutcome::Timeout => TimeoutResult::Timeout,
        RecvOutcome::Disconnected => TimeoutResult::Panic,
    }
}

/// What the timed receive of a helper-unit race yields when the helper runs
/// the body inside an unwind-capturing boundary: the captured result
/// delivered in time, an elapsed deadline, or a helper that died before it
/// could send.
#[derive(Debug, PartialEq, Eq)]
pub enum RaceMessage<T> {
    Delivered(BodyResult<T>),
    TimedOut,
    Disconnected,
}

/// The pure mapping from a race message to the four-way outcome.  A
/// delivered panic keeps its payload unchanged; a timeout records the
/// elapsed time observed by the caller.
pub open spec fn spec_classify_race<T>(msg: RaceMessage<T>, elapsed_ms: u64) -> Outcome<T> {
    match msg {
        RaceMessage::Delivered(BodyResult::Value(v)) => Outcome::Value(v),
        RaceMessage::Delivered(BodyResult::Panicked(p)) => Outcome::Panic(p),
        RaceMessage::TimedOut => Outcome::TimedOut(elapsed_ms),
        RaceMessage::Disconnected => Outcome::Disconnected,
    }
}

/// Classify what the timed receive of a helper-unit race yielded.
pub fn classify_race<T>(msg: RaceMessage<T>, elapsed_ms: u64) -> (o: Outcome<T>)
    ensures
        o == spec_classify_race(msg, elapsed_ms),
{
    match msg {
        RaceMessage::Delivered(BodyResult::Value(v)) => Outcome::Value(v),
        RaceMessage::Delivered(BodyResult::Panicked(p)) => Outcome::Panic(p),
        RaceMessage::TimedOut => Outcome::TimedOut(elapsed_ms),
        RaceMessage::Disconnected => Outcome::Disconnected,
    }
}

/// The failure message synthesized for a timeout: it embeds both the
/// elapsed time and the configured budget, in milliseconds.
pub open spec fn spec_timeout_message(elapsed_ms: u64, budget_ms: u64) -> Seq<char> {
    "timeout: the function call took "@ + dec_digits(elapsed_ms as nat) + " ms. Max time "@
        + dec_digits(budget_ms as nat) + " ms"@
}

/// Build the timeout failure message.
pub fn timeout_message(elapsed_ms: u64, budget_ms: u64) -> (m: String)
    ensures
        m@ == spec_timeout_message(elapsed_ms, budget_ms),
{
    let mut m = String::from_str("timeout: the function call took ");
    let elapsed_digits = u64_to_string(elapsed_ms);
    m.append(elapsed_digits.as_str());
    m.append(" ms. Max time ");
    let budget_digits = u64_to_string(budget_ms);
    m.append(budget_digits.as_str());
    m.append(" ms");
    proof {
        assert(m@ =~= spec_timeout_message(elapsed_ms, budget_ms));
    }
    m
}

/// The failure message for a helper unit that died without delivering,
/// distinct from the timeout message so that "no answer because overtime"
/// can be told apart from "no answer because the worker crashed".
pub open spec fn spec_disconnected_message() -> Seq<char> {
    "Thread disconnected unexpectedly"@
}

/// Build the disconnection failure message.
pub fn disconnected_message() -> (m: String)
    ensures
        m@ == spec_disconnected_message(),
{
    String::from_str("Thread disconnected unexpectedly")
}

/// The report the host framework sees for each outcome of a helper-unit
/// race: values pass through, panic payloads are re-raised unchanged, and
/// the two delivery failures get their distinct synthesized messages.
pub open spec fn report_matches<T>(o: Outcome<T>, budget_ms: u64, r: Report<T>) -> bool {
    match o {
        Outcome::Value(v) => r == Report::Pass(v),
        Outcome::Panic(p) => r == Report::<T>::Reraise(p),
        Outcome::TimedOut(elapsed_ms) => r matches Report::Fail(m) && m@ == spec_timeout_message(
            elapsed_ms,
            budget_ms,
        ),
        Outcome::Disconnected => r matches Report::Fail(m) && m@ == spec_disconnected_message(),
    }
}

/// Turn an outcome into the host-framework-visible report.
pub fn report_outcome<T>(o: Outcome<T>, budget_ms: u64) -> (r: Report<T>)
    ensures
        report_matches(o, budget_ms, r),
{
    match o {
        Outcome::Value(v) => Report::Pass(v),
        Outcome::Panic(p) => Report::Reraise(p),
        Outcome::TimedOut(elapsed_ms) => Report::Fail(timeout_message(elapsed_ms, budget_ms)),
        Outcome::Disconnected => Report::Fail(disconnected_message()),
    }
}

/// The timeout failure message contains the configured budget.
pub proof fn lemma_timeout_message_contains_budget(elapsed_ms: u64, budget_ms: u64)
    ensures
        contains_seq(spec_timeout_message(elapsed_ms, budget_ms), dec_digits(budget_ms as nat)),
{
    let pre = "timeout: the function call took "@ + dec_digits(elapsed_ms as nat)
        + " ms. Max time "@;
    let post = " ms"@;
    lemma_concat_contains_middle(pre, dec_digits(budget_ms as nat), post);
    assert(pre + dec_digits(budget_ms as nat) + post =~= spec_timeout_message(
        elapsed_ms,
        budget_ms,
    ));
}

/// The timeout failure message contains the elapsed time.
pub proof fn lemma_timeout_message_contains_elapsed(elapsed_ms: u64, budget_ms: u64)
    ensures
        contains_seq(spec_timeout_message(elapsed_ms, budget_ms), dec_digits(elapsed_ms as nat)),
{
    let pre = "timeout: the function call took "@;
    let post = " ms. Max time "@ + dec_digits(budget_ms as nat) + " ms"@;
    lemma_concat_contains_middle(pre, dec_digits(elapsed_ms as nat), post);
    assert(pre + dec_digits(elapsed_ms as nat) + post =~= spec_timeout_message(
        elapsed_ms,
        budget_ms,
    ));
}

/// The two delivery-failure messages are distinct, whatever times stand in
/// the timeout message.
pub proof fn lemma_failure_messages_distinct(elapsed_ms: u64, budget_ms: u64)
    ensures
        spec_timeout_message(elapsed_ms, budget_ms) != spec_disconnected_message(),
{
    reveal_strlit("timeout: the function call took ");
    reveal_strlit("Thread disconnected unexpectedly");
    assert(spec_timeout_message(elapsed_ms, budget_ms)[0] == 't');
    assert(spec_disconnected_message()[0] == 'T');
}

} // verus!
