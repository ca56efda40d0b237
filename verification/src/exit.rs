//! The exit splicer: consume a normalized outcome at a call site and either
//! yield the success payload to the surrounding expression, or hand back the
//! configured exit for the call site to perform.
//!
//! Performing a `return`, `continue`, or `break` is lexical: only the code
//! standing in the enclosing routine or loop can do it. The splicer therefore
//! models the exit as an explicit signal value: [`splice`] never performs
//! control flow itself, it decides, totally and unambiguously, whether the
//! call site falls through with a payload or bails with its configured exit.
//! The call site (or a thin macro around it) matches on the signal and splices
//! in the one matching keyword.

use crate::latch::OnceLatch;
use crate::IntoResult;
use vstd::prelude::*;

verus! {

/// Which loop a continue-exit or break-exit targets: the innermost enclosing
/// loop, or a named (necessarily outer) enclosing loop.
#[derive(Clone, Copy, Debug, PartialEq, Eq, Structural)]
pub enum LoopTarget {
    /// The innermost enclosing loop; what an unlabeled `continue` or `break`
    /// targets.
    Innermost,
    /// A named enclosing loop, bypassing more deeply nested ones.
    Labeled,
}

/// The exit a call site is configured to perform on failure.
#[derive(Clone, Copy, Debug, PartialEq, Eq, Structural)]
pub enum ExitKind {
    /// Return from the enclosing routine, with the routine's default or an
    /// explicitly supplied value.
    Return,
    /// Resume at the next iteration of the targeted enclosing loop.
    Continue(LoopTarget),
    /// Terminate the targeted enclosing loop.
    Break(LoopTarget),
}

/// Whether a call site logs the failures it observes.
#[derive(Clone, Copy, Debug, PartialEq, Eq, Structural)]
pub enum LogPolicy {
    /// Emit a diagnostic on every observed failure.
    Always,
    /// Never emit a diagnostic.
    Quiet,
    /// Emit a diagnostic on the first observed failure only; the call site's
    /// latch stays tripped for the rest of the process lifetime.
    Once,
}

/// What the splicer hands back to the call site: exactly one of the two arms,
/// never a fall-through.
pub enum Splice<T, E> {
    /// Success: the payload becomes the value of the surrounding expression,
    /// and no exit is performed.
    Yield(T),
    /// Failure: the call site must now perform the configured exit; the
    /// detail is carried along so that a logging call site can render it.
    Bail(ExitKind, E),
}

/// What [`splice`] returns: success yields the payload unchanged, failure
/// bails with the configured exit and the failure detail.
pub open spec fn spec_splice<T, E>(exit: ExitKind, outcome: Result<T, E>) -> Splice<T, E> {
    match outcome {
        Ok(t) => Splice::Yield(t),
        Err(e) => Splice::Bail(exit, e),
    }
}

/// Normalize a fallible value and split on the outcome: yield the success
/// payload, or bail with the exit this call site is configured to perform.
pub fn splice<T, E, I: IntoResult<T, E>>(exit: ExitKind, fallible: I) -> (r: Splice<T, E>)
    ensures
        r == spec_splice(exit, fallible.outcome()),
{
    match fallible.into_result() {
        Ok(t) => Splice::Yield(t),
        Err(e) => Splice::Bail(exit, e),
    }
}

/// Whether a failure observed under `policy` is logged, given whether the
/// call site's latch was already tripped.
pub open spec fn spec_should_log(policy: LogPolicy, already_logged: bool) -> bool {
    match policy {
        LogPolicy::Always => true,
        LogPolicy::Quiet => false,
        LogPolicy::Once => !already_logged,
    }
}

/// Decide whether an observed failure emits its diagnostic. Under the
/// log-once policy this trips the call site's latch; the other policies never
/// touch it.
pub fn should_log(policy: LogPolicy, latch: &mut OnceLatch) -> (log: bool)
    ensures
        log == spec_should_log(policy, old(latch).has_logged()),
        final(latch).has_logged() == (old(latch).has_logged() || policy is Once),
        policy is Once ==> crate::latch::once_step(*old(latch), *final(latch), log),
{
    match policy {
        LogPolicy::Always => true,
        LogPolicy::Quiet => false,
        LogPolicy::Once => latch.trip(),
    }
}

/// One bail call site observing one fallible value: normalize it, decide the
/// log, and hand back the signal. On success nothing is logged and the call
/// site's latch is untouched; on failure the logging policy decides, and the
/// signal carries the configured exit and the failure detail.
pub fn observe<T, E, I: IntoResult<T, E>>(
    exit: ExitKind,
    policy: LogPolicy,
    latch: &mut OnceLatch,
    fallible: I,
) -> (r: (Splice<T, E>, bool))
    ensures
        r.0 == spec_splice(exit, fallible.outcome()),
        fallible.outcome() is Ok ==> !r.1 && *final(latch) == *old(latch),
        fallible.outcome() is Err ==> {
            &&& r.1 == spec_should_log(policy, old(latch).has_logged())
            &&& final(latch).has_logged() == (old(latch).has_logged() || policy is Once)
        },
{
    match fallible.into_result() {
        Ok(t) => (Splice::Yield(t), false),
        Err(e) => {
            let log = should_log(policy, latch);
            (Splice::Bail(exit, e), log)
        },
    }
}

/// Law: splicing never falls through. For every normalized outcome it yields
/// exactly when the outcome is success and bails exactly when it is failure,
/// and the two arms carry the payload and the detail unchanged.
pub proof fn lemma_splice_is_total<T, E>(exit: ExitKind, outcome: Result<T, E>)
    ensures
        spec_splice(exit, outcome) is Yield <==> outcome is Ok,
        spec_splice(exit, outcome) is Bail <==> outcome is Err,
        outcome matches Ok(t) ==> spec_splice(exit, outcome) == Splice::<T, E>::Yield(t),
        outcome matches Err(e) ==> spec_splice(exit, outcome) == Splice::<T, E>::Bail(exit, e),
{
}

/// Law: the three success-bearing shapes — a true flag, a present optional,
/// and a success payload — all yield their payload unchanged, whatever exit
/// the call site is configured with, and no exit is signaled.
pub proof fn lemma_success_shapes_yield<T, E>(exit: ExitKind, payload: T)
    ensures
        spec_splice(exit, true.outcome()) == Splice::<bool, bool>::Yield(true),
        spec_splice(exit, Some(payload).outcome()) == Splice::<T, Option<()>>::Yield(payload),
        spec_splice(exit, Ok::<T, E>(payload).outcome()) == Splice::<T, E>::Yield(payload),
{
}

/// Law: the three failure-bearing shapes — a false flag, an absent optional,
/// and an error payload — all bail with exactly the exit the call site is
/// configured with, carrying the failure detail, and never yield a value to
/// the surrounding expression.
pub proof fn lemma_failure_shapes_bail<T, E>(exit: ExitKind, detail: E)
    ensures
        spec_splice(exit, false.outcome()) == Splice::<bool, bool>::Bail(exit, false),
        spec_splice(exit, None::<T>.outcome()) == Splice::<T, Option<()>>::Bail(exit, None),
        spec_splice(exit, Err::<T, E>(detail).outcome()) == Splice::<T, E>::Bail(exit, detail),
        !(spec_splice(exit, false.outcome()) is Yield),
        !(spec_splice(exit, None::<T>.outcome()) is Yield),
        !(spec_splice(exit, Err::<T, E>(detail).outcome()) is Yield),
{
}

} // verus!
