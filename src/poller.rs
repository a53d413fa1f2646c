//! The stream poller: what to make of the next item that the chunk stream
//! hands out.
//!
//! The stream itself is awaited by the caller, which feeds each item to
//! [`CompletionStreamingThread::classify_item`] until it answers with a result.
use vstd::prelude::*;
use crate::chunk::{chunk_text, StreamResponse};
use crate::status::{GptError, OutcomeModel};

verus! {

/// The decode or transport failure that the chunk stream reports in place of
/// a chunk. The poller carries it through without looking inside it.
#[verifier::external_type_specification]
#[verifier::external_body]
pub struct ExStreamBodyError(reqwest_streams::error::StreamBodyError);

/// Marker for the background task that drives the poller.
#[derive(Debug)]
pub struct CompletionStreamingThread;

/// The poller's answer to one stream item.
#[derive(Debug)]
pub enum PollStep {
    /// The item carried nothing usable: take the next one.
    Skip,
    /// The poll is over, with this result.
    Done(Result<Option<String>, GptError>),
}

/// The poller's answer to one item, in the model: `None` for a skipped item,
/// `Some(o)` where the poll ends with outcome `o`. An exhausted stream ends it
/// with "stream ended", a failed decode is skipped, and a decoded chunk ends
/// it with the chunk's text delta.
pub open spec fn poll_step_model(
    item: Option<Result<StreamResponse, reqwest_streams::error::StreamBodyError>>,
) -> Option<OutcomeModel> {
    match item {
        None => Some(Ok(None)),
        Some(Err(_)) => None,
        Some(Ok(c)) => Some(Ok(Some(chunk_text(c)))),
    }
}

/// The model of a poller answer.
pub open spec fn poll_step_view(s: &PollStep) -> Option<OutcomeModel> {
    match s {
        PollStep::Skip => None,
        PollStep::Done(Ok(Some(t))) => Some(Ok(Some(t@))),
        PollStep::Done(Ok(None)) => Some(Ok(None)),
        PollStep::Done(Err(e)) => Some(Err(e@)),
    }
}

impl CompletionStreamingThread {
    /// Decides what the poller makes of `item`, the stream's next item
    /// (`None` once the stream is exhausted).
    pub fn classify_item(
        item: Option<Result<StreamResponse, reqwest_streams::error::StreamBodyError>>,
    ) -> (r: PollStep)
        ensures
            poll_step_view(&r) == poll_step_model(item),
    {
        match item {
            None => PollStep::Done(Ok(None)),
            Some(Err(_)) => PollStep::Skip,
            Some(Ok(chunk)) => PollStep::Done(Ok(Some(chunk.parse()))),
        }
    }
}

} // verus!
