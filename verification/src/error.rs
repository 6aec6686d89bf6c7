//! What can go wrong.
use vstd::prelude::*;

verus! {

/// Errors of the runtime.
#[derive(Debug, PartialEq, Eq)]
pub enum RuntimeError {
    /// The event loop did not take a message.
    FailedToSendMessage,
    /// The event loop did not answer a message.
    FailedToReceiveMessage,
    /// The position of a window cannot be told.
    FailedToGetMonitor,
    /// A webview cannot be created.
    CreateWebview(String),
    /// There is no raw window handle.
    HandleUnavailable,
    /// The runtime does not offer this.
    Unsupported(&'static str),
}

/// The error for what the runtime does not offer.
pub fn unsupported(what: &'static str) -> (error: RuntimeError)
    ensures
        error == RuntimeError::Unsupported(what),
{
    RuntimeError::Unsupported(what)
}

/// What became of a message that was sent to the event loop for an answer.
pub enum Delivery<R> {
    /// The event loop did not take it.
    NotSent,
    /// The event loop took it and dropped it without an answer.
    NotAnswered,
    /// The event loop answered it.
    Answered(Result<R, RuntimeError>),
}

/// The result of sending a message to the event loop, given whether the loop
/// took it.
pub open spec fn send_result(taken: bool) -> Result<(), RuntimeError> {
    if taken {
        Ok(())
    } else {
        Err(RuntimeError::FailedToSendMessage)
    }
}

/// The result of sending a message to the event loop, given whether the loop
/// took it.
pub fn send(taken: bool) -> (result: Result<(), RuntimeError>)
    ensures
        result == send_result(taken),
{
    if taken {
        Ok(())
    } else {
        Err(RuntimeError::FailedToSendMessage)
    }
}

/// The result of sending a message to the event loop and waiting for the answer.
pub open spec fn roundtrip_result<R>(delivery: Delivery<R>) -> Result<R, RuntimeError> {
    match delivery {
        Delivery::NotSent => Err(RuntimeError::FailedToSendMessage),
        Delivery::NotAnswered => Err(RuntimeError::FailedToReceiveMessage),
        Delivery::Answered(answer) => answer,
    }
}

/// The result of sending a message to the event loop and waiting for the answer.
pub fn roundtrip<R>(delivery: Delivery<R>) -> (result: Result<R, RuntimeError>)
    ensures
        result == roundtrip_result(delivery),
{
    match delivery {
        Delivery::NotSent => Err(RuntimeError::FailedToSendMessage),
        Delivery::NotAnswered => Err(RuntimeError::FailedToReceiveMessage),
        Delivery::Answered(answer) => answer,
    }
}

/// A message that was taken is a success, and one that was not is an error.
pub proof fn law_sending_succeeds_iff_taken(taken: bool)
    ensures
        taken ==> send_result(taken) == Ok::<(), RuntimeError>(()),
        !taken ==> send_result(taken) == Err::<(), RuntimeError>(
            RuntimeError::FailedToSendMessage,
        ),
{
}

/// An answer is handed back as it is, be it a success or an error, and a message
/// without an answer is an error that tells why.
pub proof fn law_answers_are_handed_back<R>(answer: Result<R, RuntimeError>)
    ensures
        roundtrip_result(Delivery::Answered(answer)) == answer,
        roundtrip_result(Delivery::<R>::NotSent) == Err::<R, RuntimeError>(
            RuntimeError::FailedToSendMessage,
        ),
        roundtrip_result(Delivery::<R>::NotAnswered) == Err::<R, RuntimeError>(
            RuntimeError::FailedToReceiveMessage,
        ),
{
}

} // verus!
