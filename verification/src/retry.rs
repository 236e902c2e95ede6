use vstd::prelude::*;

verus! {

/// How a failed blocking call is classified when it is polled.
#[derive(Debug, Copy, Clone, PartialEq, Eq)]
pub enum ErrorKind {
    /// The call was interrupted before it completed, and may be tried again.
    Interrupted,
    /// The call would have blocked.
    WouldBlock,
    /// Any other kind of failure.
    Other,
}

/// A failed blocking call: the kind of its failure and the error it reported.
#[derive(Debug, Clone, PartialEq, Eq)]
pub struct IoFailure<E> {
    pub kind: ErrorKind,
    pub error: E,
}

/// What polling does after one attempt of a blocking call.
#[derive(Debug, PartialEq, Eq)]
pub enum Step<V, E> {
    /// Make the call again.
    Retry,
    /// Report this result; polling is done.
    Ready(Result<V, E>),
}

/// The step taken after an attempt that reported `attempt`.
pub open spec fn step_for<V, E>(attempt: Result<V, IoFailure<E>>) -> Step<V, E> {
    match attempt {
        Ok(v) => Step::Ready(Ok(v)),
        Err(f) => if f.kind == ErrorKind::Interrupted {
            Step::Retry
        } else {
            Step::Ready(Err(f.error))
        },
    }
}

/// Decides what to do after one attempt of a blocking call: an attempt that
/// was interrupted is made again; any other outcome, success or failure, is
/// reported as it is.
pub fn after_attempt<V, E>(attempt: Result<V, IoFailure<E>>) -> (step: Step<V, E>)
    ensures
        step == step_for(attempt),
        attempt matches Ok(v) ==> step == Step::<V, E>::Ready(Ok(v)),
        attempt matches Err(f) ==> (f.kind == ErrorKind::Interrupted ==> step is Retry),
        attempt matches Err(f) ==> (f.kind != ErrorKind::Interrupted ==> step
            == Step::<V, E>::Ready(Err(f.error))),
{
    match attempt {
        Ok(v) => Step::Ready(Ok(v)),
        Err(f) => match f.kind {
            ErrorKind::Interrupted => Step::Retry,
            _ => Step::Ready(Err(f.error)),
        },
    }
}

/// What polling reports when the attempts of a blocking call report
/// `attempts`, one after the other: the result of the first attempt that is
/// not retried, or `None` while every attempt so far was retried.
pub open spec fn outcome<V, E>(attempts: Seq<Result<V, IoFailure<E>>>) -> Option<Result<V, E>>
    decreases attempts.len(),
{
    if attempts.len() == 0 {
        None
    } else {
        match step_for(attempts[0]) {
            Step::Retry => outcome(attempts.drop_first()),
            Step::Ready(r) => Some(r),
        }
    }
}

/// An attempt that was interrupted.
pub open spec fn is_interrupted<V, E>(attempt: Result<V, IoFailure<E>>) -> bool {
    attempt matches Err(f) && f.kind == ErrorKind::Interrupted
}

/// Interruptions are invisible to the caller: however many interrupted
/// attempts come first, polling reports what the attempts after them report.
pub proof fn lemma_interruptions_invisible<V, E>(
    interrupted: Seq<Result<V, IoFailure<E>>>,
    attempts: Seq<Result<V, IoFailure<E>>>,
)
    requires
        forall|i: int| 0 <= i < interrupted.len() ==> is_interrupted(#[trigger] interrupted[i]),
    ensures
        outcome(interrupted + attempts) == outcome(attempts),
    decreases interrupted.len(),
{
    if interrupted.len() > 0 {
        assert(is_interrupted(interrupted[0]));
        assert((interrupted + attempts).drop_first() =~= interrupted.drop_first() + attempts);
        lemma_interruptions_invisible(interrupted.drop_first(), attempts);
    } else {
        assert(interrupted + attempts =~= attempts);
    }
}

/// Polling never reports an interruption: when it reports a failure, that
/// failure is the error of an attempt whose failure was of another kind, and
/// when it reports a value, some attempt completed with that value.
pub proof fn lemma_outcome_from_uninterrupted<V, E>(attempts: Seq<Result<V, IoFailure<E>>>)
    ensures
        outcome(attempts) matches Some(Ok(v)) ==> exists|i: int|
            0 <= i < attempts.len() && #[trigger] attempts[i] == Ok::<V, IoFailure<E>>(v),
        outcome(attempts) matches Some(Err(e)) ==> exists|i: int|
            0 <= i < attempts.len() && (#[trigger] attempts[i] matches Err(f) && f.error == e
                && f.kind != ErrorKind::Interrupted),
    decreases attempts.len(),
{
    if attempts.len() > 0 {
        lemma_outcome_from_uninterrupted(attempts.drop_first());
        if let Some(Ok(v)) = outcome(attempts) {
            if step_for(attempts[0]) is Retry {
                let i = choose|i: int|
                    0 <= i < attempts.drop_first().len() && #[trigger] attempts.drop_first()[i]
                        == Ok::<V, IoFailure<E>>(v);
                assert(attempts[i + 1] == Ok::<V, IoFailure<E>>(v));
            } else {
                assert(attempts[0] == Ok::<V, IoFailure<E>>(v));
            }
        }
        if let Some(Err(e)) = outcome(attempts) {
            if step_for(attempts[0]) is Retry {
                let i = choose|i: int|
                    0 <= i < attempts.drop_first().len() && (#[trigger] attempts.drop_first()[i] matches Err(f)
                        && f.error == e && f.kind != ErrorKind::Interrupted);
                assert(attempts[i + 1] == attempts.drop_first()[i]);
            } else {
                assert(attempts[0] matches Err(f) && f.error == e && f.kind != ErrorKind::Interrupted);
            }
        }
    }
}

} // verus!
