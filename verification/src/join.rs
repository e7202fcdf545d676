//! Results of handlers that ran on the runtime's blocking thread pool.

use std::any::Any;

use tokio::task::JoinError;
use vstd::prelude::*;

verus! {

/// `tokio::task::JoinError`: why a task of the runtime gave no result. Opaque here.
#[verifier::external_type_specification]
#[verifier::external_body]
pub struct ExJoinError(tokio::task::JoinError);

/// Whether a task that failed to complete did so by panicking, as
/// `tokio::task::JoinError::is_panic` reports it.
pub uninterp spec fn join_error_is_panic(error: tokio::task::JoinError) -> bool;

/// `tokio::task::JoinError::is_panic`: a pure look at the stored cause, so the answer depends
/// on the error alone.
pub assume_specification[ tokio::task::JoinError::is_panic ](error: &JoinError) -> (panicked: bool)
    ensures
        panicked == join_error_is_panic(*error),
;

/// The value that a task panicked with: a `Box<dyn Any + Send>`. Opaque here, and whole, since
/// Verus has no trait objects of several traits; it is only carried to where the panic goes on.
#[verifier::external_body]
#[derive(Debug)]
pub struct PanicPayload(pub Box<dyn Any + Send + 'static>);

/// The value that a task panicked with, as `tokio::task::JoinError::into_panic` takes it out of
/// the error of the task. It is meaningless for a task that did not panic.
pub uninterp spec fn join_error_payload(error: tokio::task::JoinError) -> PanicPayload;

/// `tokio::task::JoinError::into_panic`: hands out the value that the error holds, so it depends
/// on the error alone. The call panics for an error that holds none, that of a task which did not
/// panic: such an error is not admitted.
#[verifier::external_body]
fn into_panic(error: JoinError) -> (payload: PanicPayload)
    requires
        join_error_is_panic(error),
    ensures
        payload == join_error_payload(error),
{
    PanicPayload(error.into_panic())
}

/// Why a relayed request failed.
#[derive(Debug)]
pub enum RelayError<E> {
    /// The handler ran and returned this error.
    Handler(E),
    /// The handler's task was cancelled: an I/O error of kind `Other` that holds the cause.
    Other(JoinError),
}

/// What becomes of a request whose handler ran on the pool.
#[derive(Debug)]
pub enum Joined<T, E> {
    /// The request is answered with this result.
    Return(Result<T, RelayError<E>>),
    /// The handler panicked with this value: its panic goes on in the task that waited for it.
    ResumeUnwind(PanicPayload),
}

/// The answer to a request whose handler returned `result`.
pub open spec fn answer<T, E>(result: Result<T, E>) -> Result<T, RelayError<E>> {
    match result {
        Ok(value) => Ok(value),
        Err(error) => Err(RelayError::Handler(error)),
    }
}

/// Answers a request with what its handler returned.
pub fn answered<T, E>(result: Result<T, E>) -> (answered: Result<T, RelayError<E>>)
    ensures
        answered == answer(result),
        result matches Ok(value) ==> answered == Ok::<T, RelayError<E>>(value),
        result matches Err(error) ==> answered == Err::<T, RelayError<E>>(
            RelayError::Handler(error),
        ),
{
    match result {
        Ok(value) => Ok(value),
        Err(error) => Err(RelayError::Handler(error)),
    }
}

/// What becomes of a request whose task failed with `error`, given whether it panicked.
pub open spec fn failed<T, E>(error: JoinError, panicked: bool) -> Joined<T, E> {
    if panicked {
        Joined::ResumeUnwind(join_error_payload(error))
    } else {
        Joined::Return(Err(RelayError::Other(error)))
    }
}

/// Decides what becomes of a request whose task failed, given whether it panicked. Only the
/// error of a task that did panic holds the value to go on with.
pub fn join_failure<T, E>(error: JoinError, panicked: bool) -> (joined: Joined<T, E>)
    requires
        panicked ==> join_error_is_panic(error),
    ensures
        joined == failed::<T, E>(error, panicked),
        panicked ==> joined == Joined::<T, E>::ResumeUnwind(join_error_payload(error)),
        !panicked ==> joined == Joined::<T, E>::Return(Err(RelayError::Other(error))),
{
    if panicked {
        Joined::ResumeUnwind(into_panic(error))
    } else {
        Joined::Return(Err(RelayError::Other(error)))
    }
}

/// What becomes of a request whose awaited task handle gave `outcome`.
pub open spec fn joined_of<T, E>(outcome: Result<Result<T, E>, JoinError>) -> Joined<T, E> {
    match outcome {
        Ok(result) => Joined::Return(answer(result)),
        Err(error) => failed(error, join_error_is_panic(error)),
    }
}

/// Settles a request from what awaiting its task's handle gave.
///
/// Panics of the blocking task are propagated, a cancelled task is reported
/// as an `Other` error.
pub fn join_blocking<T, E>(outcome: Result<Result<T, E>, JoinError>) -> (joined: Joined<T, E>)
    ensures
        joined == joined_of(outcome),
        outcome matches Ok(Ok(value)) ==> joined == Joined::<T, E>::Return(Ok(value)),
        outcome matches Ok(Err(error)) ==> joined == Joined::<T, E>::Return(
            Err(RelayError::Handler(error)),
        ),
        outcome matches Err(error) ==> joined == (if join_error_is_panic(error) {
            Joined::<T, E>::ResumeUnwind(join_error_payload(error))
        } else {
            Joined::<T, E>::Return(Err(RelayError::Other(error)))
        }),
{
    match outcome {
        Ok(result) => Joined::Return(answered(result)),
        Err(error) => {
            let panicked = error.is_panic();
            join_failure(error, panicked)
        },
    }
}

} // verus!
