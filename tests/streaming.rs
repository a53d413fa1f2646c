use reqwest_streams::error::{StreamBodyError, StreamBodyKind};
use streaming_utils::chunk::{StreamChoice, StreamDelta, StreamResponse};
use streaming_utils::handler::{
    notification_outcome, ChannelEvent, Notification, ReceiveAction, StreamedCompletionHandler,
    DEFAULT_RECEIVE_TIMEOUT_MS,
};
use streaming_utils::poller::{CompletionStreamingThread, PollStep};
use streaming_utils::producer::{continues_after_send, producer_step};
use streaming_utils::status::{CompletionStreamStatus, GptError, StreamError};

fn chunk(content: Option<&str>) -> StreamResponse {
    StreamResponse {
        choices: vec![StreamChoice {
            delta: StreamDelta { role: Some("assistant".to_string()), content: content.map(|c| c.to_string()) },
        }],
    }
}

fn decode_failure() -> StreamBodyError {
    StreamBodyError::new(StreamBodyKind::CodecError, None, Some("bad chunk".to_string()))
}

/// Runs the poller over `items` until it answers, as the background task does.
fn poll(items: &mut Vec<Option<Result<StreamResponse, StreamBodyError>>>) -> Result<Option<String>, GptError> {
    loop {
        let item = if items.is_empty() { None } else { items.remove(0) };
        match CompletionStreamingThread::classify_item(item) {
            PollStep::Skip => continue,
            PollStep::Done(r) => return r,
        }
    }
}

/// Runs the background task's loop over poller results, every send delivered.
fn produce(outcomes: Vec<Result<Option<String>, GptError>>) -> Vec<Result<CompletionStreamStatus, StreamError>> {
    let mut sent = Vec::new();
    for outcome in outcomes {
        let step = producer_step(outcome);
        let go_on = continues_after_send(step.keep_polling, true);
        sent.push(step.message);
        if !go_on {
            break;
        }
    }
    sent
}

/// Runs receive calls on `events`, every notification delivered; returns what
/// the caller saw and the notifications submitted.
fn consume(
    handler: &mut StreamedCompletionHandler<(), ()>,
    events: Vec<ChannelEvent>,
) -> (Vec<Option<CompletionStreamStatus>>, Vec<Notification>) {
    let mut seen = Vec::new();
    let mut notes = Vec::new();
    for event in events {
        let _ = handler.take_resources();
        match handler.receive("agent-1", event) {
            ReceiveAction::Return(r) => seen.push(r),
            ReceiveAction::Notify(n) => {
                notes.push(n);
                seen.push(notification_outcome(true));
            }
        }
    }
    (seen, notes)
}

fn working(t: &str) -> Option<CompletionStreamStatus> {
    Some(CompletionStreamStatus::Working(t.to_string()))
}

fn same(a: &[Option<CompletionStreamStatus>], b: &[Option<CompletionStreamStatus>]) -> bool {
    format!("{:?}", a) == format!("{:?}", b)
}

#[test]
fn three_deltas_then_end() {
    let mut items = vec![
        Some(Ok(chunk(Some("Hel")))),
        Some(Ok(chunk(Some("lo")))),
        Some(Ok(chunk(Some(" world")))),
    ];
    let mut outcomes = Vec::new();
    for _ in 0..4 {
        outcomes.push(poll(&mut items));
    }
    let sent = produce(outcomes);
    let mut handler = StreamedCompletionHandler::new((), ());
    let (seen, notes) = consume(&mut handler, sent.into_iter().map(ChannelEvent::Received).collect());
    assert!(same(&seen, &[working("Hel"), working("lo"), working(" world"), Some(CompletionStreamStatus::Finished)]));
    assert_eq!(notes.len(), 1);
    assert_eq!(notes[0].content, "Hello world");
    assert_eq!(notes[0].agent_id, "agent-1");
    assert_eq!(handler.message_content(), "Hello world");
}

#[test]
fn recoverable_error_then_delta_then_end() {
    let sent = produce(vec![Err(GptError::Recoverable), Ok(Some("ok".to_string())), Ok(None)]);
    assert_eq!(sent.len(), 3);
    assert!(matches!(sent[0], Err(StreamError::RetryError)));
    let mut handler = StreamedCompletionHandler::new((), ());
    let (seen, notes) = consume(&mut handler, sent.into_iter().map(ChannelEvent::Received).collect());
    let visible: Vec<Option<CompletionStreamStatus>> = seen.into_iter().filter(|s| s.is_some()).collect();
    assert!(same(&visible, &[working("ok"), Some(CompletionStreamStatus::Finished)]));
    assert_eq!(handler.message_content(), "ok");
    assert_eq!(notes.len(), 1);
    assert_eq!(notes[0].content, "ok");
}

#[test]
fn terminal_error_stops_the_task() {
    let sent = produce(vec![
        Ok(Some("a".to_string())),
        Err(GptError::Terminal("quota exhausted".to_string())),
        Ok(Some("b".to_string())),
        Ok(None),
    ]);
    assert_eq!(sent.len(), 2);
    match &sent[1] {
        Err(StreamError::GptError(GptError::Terminal(m))) => assert_eq!(m, "quota exhausted"),
        other => panic!("unexpected {:?}", other),
    }
}

#[test]
fn spawn_happens_once() {
    let mut handler = StreamedCompletionHandler::new(7u8, "tx");
    assert!(!handler.is_spawned());
    let first = handler.take_resources();
    assert_eq!(first, Some((7u8, "tx")));
    assert!(handler.is_spawned());
    for _ in 0..5 {
        assert_eq!(handler.take_resources(), None);
        let _ = handler.receive("a", ChannelEvent::TimedOut);
    }
    assert!(handler.is_spawned());
}

#[test]
fn timeouts_drop_and_duplicate_nothing() {
    let mut handler = StreamedCompletionHandler::new((), ());
    let events = vec![
        ChannelEvent::TimedOut,
        ChannelEvent::Received(Ok(CompletionStreamStatus::Working("x".to_string()))),
        ChannelEvent::TimedOut,
        ChannelEvent::TimedOut,
        ChannelEvent::Received(Ok(CompletionStreamStatus::Working("y".to_string()))),
        ChannelEvent::Received(Ok(CompletionStreamStatus::Finished)),
    ];
    let (seen, notes) = consume(&mut handler, events);
    assert!(same(&seen, &[None, working("x"), None, None, working("y"), Some(CompletionStreamStatus::Finished)]));
    assert_eq!(notes.len(), 1);
    assert_eq!(notes[0].content, "xy");
}

#[test]
fn notification_only_once() {
    let mut handler = StreamedCompletionHandler::new((), ());
    let events = vec![
        ChannelEvent::Received(Ok(CompletionStreamStatus::Working("z".to_string()))),
        ChannelEvent::Received(Ok(CompletionStreamStatus::Finished)),
        ChannelEvent::Received(Ok(CompletionStreamStatus::Finished)),
    ];
    let (seen, notes) = consume(&mut handler, events);
    assert_eq!(notes.len(), 1);
    assert_eq!(notes[0].content, "z");
    assert!(same(&seen, &[working("z"), Some(CompletionStreamStatus::Finished), None]));
    assert!(handler.is_finished());
}

#[test]
fn errors_and_closed_channel_return_nothing() {
    let mut handler = StreamedCompletionHandler::new((), ());
    let events = vec![
        ChannelEvent::Received(Err(StreamError::RetryError)),
        ChannelEvent::Received(Err(StreamError::Undefined("boom".to_string()))),
        ChannelEvent::Received(Err(StreamError::GptError(GptError::Terminal("t".to_string())))),
        ChannelEvent::Closed,
    ];
    let (seen, notes) = consume(&mut handler, events);
    assert!(same(&seen, &[None, None, None, None]));
    assert!(notes.is_empty());
    assert_eq!(handler.message_content(), "");
    assert!(!handler.is_finished());
}

#[test]
fn failed_notification_returns_nothing() {
    assert!(notification_outcome(false).is_none());
    assert!(matches!(notification_outcome(true), Some(CompletionStreamStatus::Finished)));
}

#[test]
fn poller_skips_decode_failures() {
    let mut items = vec![Some(Err(decode_failure())), Some(Err(decode_failure())), Some(Ok(chunk(Some("hi"))))];
    assert_eq!(poll(&mut items).unwrap(), Some("hi".to_string()));
    assert_eq!(poll(&mut items).unwrap(), None);
}

#[test]
fn poller_reads_first_choice_or_empty() {
    let empty = StreamResponse { choices: vec![] };
    assert!(matches!(CompletionStreamingThread::classify_item(Some(Ok(empty))), PollStep::Done(Ok(Some(ref t))) if t.is_empty()));
    assert!(matches!(CompletionStreamingThread::classify_item(Some(Ok(chunk(None)))), PollStep::Done(Ok(Some(ref t))) if t.is_empty()));
    let two = StreamResponse {
        choices: vec![
            StreamChoice { delta: StreamDelta { role: None, content: Some("first".to_string()) } },
            StreamChoice { delta: StreamDelta { role: None, content: Some("second".to_string()) } },
        ],
    };
    assert_eq!(two.parse(), "first");
    assert!(matches!(CompletionStreamingThread::classify_item(None), PollStep::Done(Ok(None))));
    assert!(matches!(CompletionStreamingThread::classify_item(Some(Err(decode_failure()))), PollStep::Skip));
}

#[test]
fn send_failure_stops_the_task() {
    let step = producer_step(Ok(Some("t".to_string())));
    assert!(continues_after_send(step.keep_polling, true));
    assert!(!continues_after_send(step.keep_polling, false));
    let retry = producer_step(Err(GptError::Recoverable));
    assert!(continues_after_send(retry.keep_polling, true));
    assert!(!continues_after_send(retry.keep_polling, false));
    let end = producer_step(Ok(None));
    assert!(!continues_after_send(end.keep_polling, true));
}

#[test]
fn timeout_is_configurable() {
    let h: StreamedCompletionHandler<(), ()> = StreamedCompletionHandler::new((), ());
    assert_eq!(h.receive_timeout(), 1000);
    assert_eq!(DEFAULT_RECEIVE_TIMEOUT_MS, 1000);
    let h2: StreamedCompletionHandler<(), ()> = StreamedCompletionHandler::with_timeout((), (), 250);
    assert_eq!(h2.receive_timeout(), 250);
}
