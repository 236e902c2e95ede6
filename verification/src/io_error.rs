use vstd::prelude::*;

use crate::retry::{after_attempt, step_for, ErrorKind, IoFailure, Step};

verus! {

/// `std::io::Error`, carried through the decision unchanged.
#[verifier::external_type_specification]
#[verifier::external_body]
pub struct ExIoError(std::io::Error);

/// Calls `std::io::Error::kind` and tells `Interrupted` and `WouldBlock`
/// apart from every other kind. Nothing is stated of which class comes back:
/// the error is opaque here, so no clause can name its kind.
#[verifier::external_body]
fn io_error_kind(e: &std::io::Error) -> (kind: ErrorKind) {
    match e.kind() {
        std::io::ErrorKind::Interrupted => ErrorKind::Interrupted,
        std::io::ErrorKind::WouldBlock => ErrorKind::WouldBlock,
        _ => ErrorKind::Other,
    }
}

/// Decides what to do after one attempt of a blocking `std::io` call: a call
/// that failed with `ErrorKind::Interrupted` is made again; a success, or a
/// failure of any other kind, is reported as it is.
pub fn after_io_attempt<V>(attempt: std::io::Result<V>) -> (step: Step<V, std::io::Error>)
    ensures
        attempt matches Ok(v) ==> step == Step::<V, std::io::Error>::Ready(Ok(v)),
        attempt matches Err(e) ==> exists|kind: ErrorKind|
            step == step_for(Err::<V, IoFailure<std::io::Error>>(IoFailure { kind, error: e })),
        attempt matches Err(e) ==> (step is Retry || step == Step::<V, std::io::Error>::Ready(Err(e))),
{
    match attempt {
        Ok(v) => after_attempt(Ok(v)),
        Err(error) => {
            let kind = io_error_kind(&error);
            after_attempt(Err(IoFailure { kind, error }))
        },
    }
}

} // verus!
