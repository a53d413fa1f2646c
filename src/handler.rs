//! The consumer side of a streamed completion: the single-use hand-off of the
//! stream and the channel's sending end to the background task, the running
//! accumulation of text, and the one notification at the end.
use vstd::prelude::*;
use vstd::string::*;
use crate::status::{message_model, CompletionStreamStatus, MessageModel, StatusModel, StreamError};

verus! {

/// The receive timeout, in milliseconds, that a handler is made with unless
/// its caller picks another.
pub const DEFAULT_RECEIVE_TIMEOUT_MS: u64 = 1000;

/// What waiting on the channel produced.
#[derive(Debug)]
pub enum ChannelEvent {
    /// The timeout elapsed with nothing received.
    TimedOut,
    /// The channel is closed and empty.
    Closed,
    /// A value arrived.
    Received(Result<CompletionStreamStatus, StreamError>),
}

/// The request, for the messaging collaborator, to persist the completed
/// message.
#[derive(Debug)]
pub struct Notification {
    pub agent_id: String,
    pub content: String,
}

/// What a receive call does with the event it saw.
#[derive(Debug)]
pub enum ReceiveAction {
    /// Hand this result to the caller.
    Return(Option<CompletionStreamStatus>),
    /// Submit this notification, then hand the caller what
    /// [`notification_outcome`] makes of the submission.
    Notify(Notification),
}

/// Model of a channel event.
pub enum EventModel {
    TimedOut,
    Closed,
    Received(MessageModel),
}

/// Model of a receive action: a notification is its agent and its text.
pub enum ActionModel {
    Return(Option<StatusModel>),
    Notify(Seq<char>, Seq<char>),
}

/// Model of a handler: whether the background task has been handed its
/// resources, the text accumulated so far, and whether the end of generation
/// has been observed (and with it the one notification requested).
pub struct HandlerModel {
    pub spawned: bool,
    pub content: Seq<char>,
    pub finished: bool,
}

pub open spec fn event_model(e: &ChannelEvent) -> EventModel {
    match e {
        ChannelEvent::TimedOut => EventModel::TimedOut,
        ChannelEvent::Closed => EventModel::Closed,
        ChannelEvent::Received(m) => EventModel::Received(message_model(m)),
    }
}

pub open spec fn action_model(a: &ReceiveAction) -> ActionModel {
    match a {
        ReceiveAction::Return(Some(s)) => ActionModel::Return(Some(s@)),
        ReceiveAction::Return(None) => ActionModel::Return(None),
        ReceiveAction::Notify(n) => ActionModel::Notify(n.agent_id@, n.content@),
    }
}

/// A handler that has handed nothing out and observed nothing.
pub open spec fn initial_model() -> HandlerModel {
    HandlerModel { spawned: false, content: Seq::empty(), finished: false }
}

/// The hand-off at the start of every receive call: the resources leave the
/// handler on the first call only.
pub open spec fn spawn_step(h: HandlerModel) -> (HandlerModel, bool) {
    (HandlerModel { spawned: true, ..h }, !h.spawned)
}

/// One receive call's decision on the event it saw. A delta is appended to
/// the text and handed on; the first end of generation asks for the
/// notification with the whole text; everything else (a timeout, a closed
/// channel, an error value, a repeated end) hands on nothing and changes
/// nothing.
pub open spec fn consumer_step(h: HandlerModel, agent: Seq<char>, e: EventModel) -> (
    HandlerModel,
    ActionModel,
) {
    match e {
        EventModel::Received(Ok(StatusModel::Working(t))) => (
            HandlerModel { content: h.content + t, ..h },
            ActionModel::Return(Some(StatusModel::Working(t))),
        ),
        EventModel::Received(Ok(StatusModel::Finished)) => if h.finished {
            (h, ActionModel::Return(None))
        } else {
            (HandlerModel { finished: true, ..h }, ActionModel::Notify(agent, h.content))
        },
        _ => (h, ActionModel::Return(None)),
    }
}

/// The consumer-side state of one completion. `S` is the chunk stream and `T`
/// the channel's sending end: they are held in one slot, so they are present
/// together until the background task takes them, and absent together after.
pub struct StreamedCompletionHandler<S, T> {
    resources: Option<(S, T)>,
    message_content: String,
    finished: bool,
    receive_timeout_ms: u64,
}

impl<S, T> View for StreamedCompletionHandler<S, T> {
    type V = HandlerModel;

    closed spec fn view(&self) -> HandlerModel {
        HandlerModel {
            spawned: self.resources is None,
            content: self.message_content@,
            finished: self.finished,
        }
    }
}

impl<S, T> StreamedCompletionHandler<S, T> {
    /// A handler that holds `stream` and `sender` until the first receive
    /// call, and waits [`DEFAULT_RECEIVE_TIMEOUT_MS`] on each.
    pub fn new(stream: S, sender: T) -> (r: Self)
        ensures
            r@ == initial_model(),
            r.receive_timeout_ms() == DEFAULT_RECEIVE_TIMEOUT_MS,
    {
        Self::with_timeout(stream, sender, DEFAULT_RECEIVE_TIMEOUT_MS)
    }

    /// A handler as [`Self::new`] makes it, that waits `timeout_ms` on each
    /// receive call.
    pub fn with_timeout(stream: S, sender: T, timeout_ms: u64) -> (r: Self)
        ensures
            r@ == initial_model(),
            r.receive_timeout_ms() == timeout_ms,
    {
        StreamedCompletionHandler {
            resources: Some((stream, sender)),
            message_content: String::new(),
            finished: false,
            receive_timeout_ms: timeout_ms,
        }
    }

    pub closed spec fn receive_timeout_ms(&self) -> u64 {
        self.receive_timeout_ms
    }

    /// How long, in milliseconds, a receive call waits for the next value.
    pub fn receive_timeout(&self) -> (r: u64)
        ensures
            r == self.receive_timeout_ms(),
    {
        self.receive_timeout_ms
    }

    /// Hands the stream and the sending end to the background task: both on
    /// the first call, nothing on any later one.
    pub fn take_resources(&mut self) -> (r: Option<(S, T)>)
        ensures
            r is Some <==> !old(self)@.spawned,
            (final(self)@, r is Some) == spawn_step(old(self)@),
            final(self).receive_timeout_ms() == old(self).receive_timeout_ms(),
    {
        self.resources.take()
    }

    /// Decides what a receive call does with the event its wait produced.
    /// Deltas are accumulated here and nowhere else.
    pub fn receive(&mut self, agent_id: &str, event: ChannelEvent) -> (r: ReceiveAction)
        ensures
            (final(self)@, action_model(&r)) == consumer_step(old(self)@, agent_id@, event_model(&event)),
            final(self).receive_timeout_ms() == old(self).receive_timeout_ms(),
    {
        match event {
            ChannelEvent::Received(Ok(CompletionStreamStatus::Working(token))) => {
                self.message_content.append(token.as_str());
                ReceiveAction::Return(Some(CompletionStreamStatus::Working(token)))
            },
            ChannelEvent::Received(Ok(CompletionStreamStatus::Finished)) => {
                if self.finished {
                    ReceiveAction::Return(None)
                } else {
                    self.finished = true;
                    ReceiveAction::Notify(
                        Notification {
                            agent_id: agent_id.to_owned(),
                            content: self.message_content.clone(),
                        },
                    )
                }
            },
            _ => ReceiveAction::Return(None),
        }
    }

    /// The text accumulated so far.
    pub fn message_content(&self) -> (r: &str)
        ensures
            r@ == self@.content,
    {
        self.message_content.as_str()
    }

    /// Whether the background task has been handed its resources.
    pub fn is_spawned(&self) -> (r: bool)
        ensures
            r == self@.spawned,
    {
        self.resources.is_none()
    }

    /// Whether the end of generation has been observed.
    pub fn is_finished(&self) -> (r: bool)
        ensures
            r == self@.finished,
    {
        self.finished
    }
}

/// What a receive call hands its caller once the notification was submitted:
/// `Finished` where the submission was delivered, nothing where it failed.
pub fn notification_outcome(delivered: bool) -> (r: Option<CompletionStreamStatus>)
    ensures
        delivered ==> r matches Some(CompletionStreamStatus::Finished),
        !delivered ==> r is None,
{
    if delivered {
        Some(CompletionStreamStatus::Finished)
    } else {
        None
    }
}

} // verus!
