//! The values that cross the channel from the background task to the consumer.
use vstd::prelude::*;

verus! {

/// What the background task observed: more text, or the end of generation.
#[derive(Debug)]
pub enum CompletionStreamStatus {
    Working(String),
    Finished,
}

/// A logical error that the provider reports.
#[derive(Debug)]
pub enum GptError {
    /// A passing condition (such as rate limiting): poll again.
    Recoverable,
    /// Any other condition, with the provider's message.
    Terminal(String),
}

/// An error value sent over the channel.
#[derive(Debug)]
pub enum StreamError {
    /// An internal failure, described by its message.
    Undefined(String),
    /// A terminal provider error.
    GptError(GptError),
    /// A recoverable provider error: the background task keeps polling.
    RetryError,
}

/// Mathematical model of a status.
pub enum StatusModel {
    Working(Seq<char>),
    Finished,
}

/// Mathematical model of a provider error.
pub enum ProviderErrorModel {
    Recoverable,
    Terminal(Seq<char>),
}

/// Mathematical model of a channel error.
pub enum ErrorModel {
    Undefined(Seq<char>),
    Provider(ProviderErrorModel),
    Retry,
}

impl View for CompletionStreamStatus {
    type V = StatusModel;

    open spec fn view(&self) -> StatusModel {
        match self {
            CompletionStreamStatus::Working(t) => StatusModel::Working(t@),
            CompletionStreamStatus::Finished => StatusModel::Finished,
        }
    }
}

impl View for GptError {
    type V = ProviderErrorModel;

    open spec fn view(&self) -> ProviderErrorModel {
        match self {
            GptError::Recoverable => ProviderErrorModel::Recoverable,
            GptError::Terminal(m) => ProviderErrorModel::Terminal(m@),
        }
    }
}

impl View for StreamError {
    type V = ErrorModel;

    open spec fn view(&self) -> ErrorModel {
        match self {
            StreamError::Undefined(m) => ErrorModel::Undefined(m@),
            StreamError::GptError(e) => ErrorModel::Provider(e@),
            StreamError::RetryError => ErrorModel::Retry,
        }
    }
}

/// Model of one value sent over the channel.
pub type MessageModel = Result<StatusModel, ErrorModel>;

/// Model of what the poller returns: a delta, the end of the stream, or a
/// provider error.
pub type OutcomeModel = Result<Option<Seq<char>>, ProviderErrorModel>;

/// The model of a value sent over the channel.
pub open spec fn message_model(m: &Result<CompletionStreamStatus, StreamError>) -> MessageModel {
    match m {
        Ok(s) => Ok(s@),
        Err(e) => Err(e@),
    }
}

/// The model of a poller result.
pub open spec fn outcome_model(o: &Result<Option<String>, GptError>) -> OutcomeModel {
    match o {
        Ok(Some(t)) => Ok(Some(t@)),
        Ok(None) => Ok(None),
        Err(e) => Err(e@),
    }
}

} // verus!
