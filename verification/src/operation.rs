//! The policy by which an operation on the handle is carried out.
//!
//! An operation is attempted against the handle. When the attempt was
//! interrupted it is made again at once; every other result, a success, a
//! handle that is not ready or another failure, is what the caller gets. The
//! decision after one attempt is [`after_attempt`]; the loop around it belongs
//! to whoever owns the handle, and [`perform`] says what that loop yields for
//! the results that the attempts produce.

use vstd::prelude::*;
use crate::error::IoError;

verus! {

/// What is to be done once an attempt has come back.
#[derive(Debug, PartialEq, Eq)]
pub enum Step<T> {
    /// The attempt was interrupted: make it again, without waiting.
    Retry,
    /// The operation is over, and this is its result.
    Return(Result<T, IoError>),
}

/// What became of an operation: how often it was attempted, and its result.
pub struct Performed<T> {
    pub attempts: nat,
    pub result: Result<T, IoError>,
}

/// True when the attempt was interrupted and says nothing yet.
pub open spec fn is_interrupted<T>(result: Result<T, IoError>) -> bool {
    result matches Err(e) && e.is_transient()
}

/// The step that follows an attempt with the given result.
pub open spec fn step_for<T>(result: Result<T, IoError>) -> Step<T> {
    if is_interrupted(result) {
        Step::Retry
    } else {
        Step::Return(result)
    }
}

/// How many results at the start of `trace` are interruptions.
pub open spec fn interruptions<T>(trace: Seq<Result<T, IoError>>) -> nat
    decreases trace.len(),
{
    if trace.len() > 0 && is_interrupted(trace[0]) {
        1 + interruptions(trace.skip(1))
    } else {
        0
    }
}

/// What the caller observes when the successive attempts produce the results
/// in `trace`, one per attempt: the first result that is not an interruption,
/// and the number of attempts up to and including it. `None` when every
/// attempt in `trace` was interrupted, so that the operation is not over.
pub open spec fn perform<T>(trace: Seq<Result<T, IoError>>) -> Option<Performed<T>> {
    let k = interruptions(trace);
    if k < trace.len() {
        Some(Performed { attempts: k + 1, result: trace[k as int] })
    } else {
        None
    }
}

/// Decides what follows an attempt: an interrupted one is made again, and any
/// other result is handed to the caller as it is.
pub fn after_attempt<T>(result: Result<T, IoError>) -> (step: Step<T>)
    ensures
        step == step_for(result),
{
    match result {
        Err(IoError::Interrupted) => Step::Retry,
        other => Step::Return(other),
    }
}

/// The interruptions at the start of a trace are as many as its leading
/// results that are interruptions: none more and none fewer.
pub proof fn lemma_interruptions<T>(trace: Seq<Result<T, IoError>>)
    ensures
        interruptions(trace) <= trace.len(),
        forall|i: int| 0 <= i < interruptions(trace) ==> is_interrupted(#[trigger] trace[i]),
        interruptions(trace) < trace.len() ==> !is_interrupted(trace[interruptions(trace) as int]),
    decreases trace.len(),
{
    if trace.len() > 0 && is_interrupted(trace[0]) {
        let rest = trace.skip(1);
        lemma_interruptions(rest);
        assert forall|i: int| 0 <= i < interruptions(trace) implies is_interrupted(
            #[trigger] trace[i],
        ) by {
            if i > 0 {
                assert(trace[i] == rest[i - 1]);
            }
        }
        if interruptions(trace) < trace.len() {
            assert(trace[interruptions(trace) as int] == rest[interruptions(rest) as int]);
        }
    }
}

/// An operation whose first `k` attempts are interrupted and whose next
/// attempt is not ends with the result of that attempt, after exactly `k + 1`
/// attempts, whatever later attempts would have produced.
pub proof fn lemma_perform_settles<T>(trace: Seq<Result<T, IoError>>, k: nat)
    requires
        k < trace.len(),
        forall|i: int| 0 <= i < k ==> is_interrupted(#[trigger] trace[i]),
        !is_interrupted(trace[k as int]),
    ensures
        perform(trace) == Some(Performed::<T> { attempts: k + 1, result: trace[k as int] }),
{
    lemma_interruptions(trace);
    let n = interruptions(trace);
    if n < k {
        assert(is_interrupted(trace[n as int]));
    }
    if k < n {
        assert(is_interrupted(trace[k as int]));
    }
}

/// An operation that is interrupted `k` times and then succeeds hands the
/// caller that success, and nothing else, and has been attempted exactly
/// `k + 1` times.
pub proof fn lemma_interrupted_then_success<T>(trace: Seq<Result<T, IoError>>, k: nat, value: T)
    requires
        k < trace.len(),
        forall|i: int| 0 <= i < k ==> #[trigger] trace[i] == Err::<T, IoError>(IoError::Interrupted),
        trace[k as int] == Ok::<T, IoError>(value),
    ensures
        perform(trace) == Some(Performed::<T> { attempts: k + 1, result: Ok(value) }),
{
    lemma_perform_settles(trace, k);
}

/// An operation whose first attempt finds the handle not ready ends there:
/// the caller gets `WouldBlock` after one attempt, and no second one is made.
pub proof fn lemma_would_block_is_not_retried<T>(trace: Seq<Result<T, IoError>>)
    requires
        trace.len() > 0,
        trace[0] == Err::<T, IoError>(IoError::WouldBlock),
    ensures
        step_for(trace[0]) == Step::Return(Err::<T, IoError>(IoError::WouldBlock)),
        perform(trace) == Some(Performed::<T> { attempts: 1, result: Err(IoError::WouldBlock) }),
{
    lemma_perform_settles(trace, 0);
}

/// What the caller gets is never an interruption: it is the result of the
/// last attempt made, every attempt before it was interrupted, and an
/// operation is over exactly when some attempt was not interrupted.
pub proof fn lemma_interruption_never_surfaces<T>(trace: Seq<Result<T, IoError>>)
    ensures
        perform(trace) matches Some(done) ==> {
            &&& 1 <= done.attempts <= trace.len()
            &&& done.result == trace[done.attempts - 1]
            &&& !is_interrupted(done.result)
            &&& step_for(trace[done.attempts - 1]) == Step::Return(done.result)
            &&& forall|i: int| 0 <= i < done.attempts - 1 ==> step_for(#[trigger] trace[i]) == Step::<T>::Retry
        },
        perform(trace) is None <==> forall|i: int| 0 <= i < trace.len() ==> is_interrupted(#[trigger] trace[i]),
{
    lemma_interruptions(trace);
}

} // verus!
