//! The background task's decision for one poller result: what to send over
//! the channel, and whether to poll again.
use vstd::prelude::*;
use crate::status::{
    message_model, outcome_model, CompletionStreamStatus, ErrorModel, GptError, MessageModel,
    OutcomeModel, ProviderErrorModel, StatusModel, StreamError,
};

verus! {

/// What the background task does with one poller result.
#[derive(Debug)]
pub struct ProducerStep {
    /// The value to send over the channel.
    pub message: Result<CompletionStreamStatus, StreamError>,
    /// Whether to poll again once the value is delivered.
    pub keep_polling: bool,
}

/// The value sent for a poller result: a delta becomes `Working`, the end of
/// the stream `Finished`, a recoverable error a retry notice, and any other
/// error a terminal error that wraps it.
pub open spec fn producer_message(o: OutcomeModel) -> MessageModel {
    match o {
        Ok(Some(t)) => Ok(StatusModel::Working(t)),
        Ok(None) => Ok(StatusModel::Finished),
        Err(ProviderErrorModel::Recoverable) => Err(ErrorModel::Retry),
        Err(e) => Err(ErrorModel::Provider(e)),
    }
}

/// Whether the background task polls again after a poller result: after a
/// delta and after a recoverable error; never after the end of the stream or
/// a terminal error.
pub open spec fn keeps_polling(o: OutcomeModel) -> bool {
    match o {
        Ok(Some(_)) => true,
        Err(ProviderErrorModel::Recoverable) => true,
        _ => false,
    }
}

/// Decides what the background task does with the poller's result.
pub fn producer_step(outcome: Result<Option<String>, GptError>) -> (r: ProducerStep)
    ensures
        message_model(&r.message) == producer_message(outcome_model(&outcome)),
        r.keep_polling == keeps_polling(outcome_model(&outcome)),
{
    match outcome {
        Ok(Some(token)) => ProducerStep {
            message: Ok(CompletionStreamStatus::Working(token)),
            keep_polling: true,
        },
        Ok(None) => ProducerStep { message: Ok(CompletionStreamStatus::Finished), keep_polling: false },
        Err(GptError::Recoverable) => ProducerStep {
            message: Err(StreamError::RetryError),
            keep_polling: true,
        },
        Err(e) => ProducerStep { message: Err(StreamError::GptError(e)), keep_polling: false },
    }
}

/// Whether the background task's loop goes on after sending the value of a
/// step whose `keep_polling` flag is given, and whether that send was
/// delivered: a send to a dropped receiver ends the task at once.
pub fn continues_after_send(keep_polling: bool, delivered: bool) -> (r: bool)
    ensures
        r == (keep_polling && delivered),
{
    keep_polling && delivered
}

} // verus!
