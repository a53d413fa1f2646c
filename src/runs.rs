//! Whole runs of the background task and of the consumer, built from the
//! single steps that the executable code is proved against, and the laws that
//! such runs obey.
use vstd::prelude::*;
use crate::handler::{consumer_step, spawn_step, ActionModel, EventModel, HandlerModel};
use crate::producer::{keeps_polling, producer_message};
use crate::status::{ErrorModel, MessageModel, OutcomeModel, ProviderErrorModel, StatusModel};

verus! {

/// The values that the background task sends for a sequence of poller
/// results, each send delivered: one per result, up to and including the
/// first result after which it stops polling.
pub open spec fn producer_run(outcomes: Seq<OutcomeModel>) -> Seq<MessageModel>
    decreases outcomes.len(),
{
    if outcomes.len() == 0 {
        Seq::empty()
    } else if keeps_polling(outcomes[0]) {
        seq![producer_message(outcomes[0])] + producer_run(outcomes.drop_first())
    } else {
        seq![producer_message(outcomes[0])]
    }
}

/// Whether the background task polls again after each of `outcomes`.
pub open spec fn all_keep_polling(outcomes: Seq<OutcomeModel>) -> bool {
    forall|i: int| 0 <= i < outcomes.len() ==> #[trigger] keeps_polling(outcomes[i])
}

/// The channel events by which the consumer receives `msgs`, one by one.
pub open spec fn received(msgs: Seq<MessageModel>) -> Seq<EventModel> {
    msgs.map_values(|m: MessageModel| EventModel::Received(m))
}

/// The handler's state and the actions of successive receive decisions on
/// `events`, starting from `h`.
pub open spec fn consumer_run(h: HandlerModel, agent: Seq<char>, events: Seq<EventModel>) -> (
    HandlerModel,
    Seq<ActionModel>,
)
    decreases events.len(),
{
    if events.len() == 0 {
        (h, Seq::empty())
    } else {
        let first = consumer_step(h, agent, events[0]);
        let rest = consumer_run(first.0, agent, events.drop_first());
        (rest.0, seq![first.1] + rest.1)
    }
}

/// Whole receive calls on `events`: each first offers the background task
/// its resources, then decides on its event. Returns the final state, for
/// each call whether it spawned the task, and each call's action.
pub open spec fn calls_run(h: HandlerModel, agent: Seq<char>, events: Seq<EventModel>) -> (
    HandlerModel,
    Seq<bool>,
    Seq<ActionModel>,
)
    decreases events.len(),
{
    if events.len() == 0 {
        (h, Seq::empty(), Seq::empty())
    } else {
        let spawned = spawn_step(h);
        let first = consumer_step(spawned.0, agent, events[0]);
        let rest = calls_run(first.0, agent, events.drop_first());
        (rest.0, seq![spawned.1] + rest.1, seq![first.1] + rest.2)
    }
}

/// How many of `flags` are set.
pub open spec fn count_set(flags: Seq<bool>) -> nat
    decreases flags.len(),
{
    if flags.len() == 0 {
        0
    } else {
        (if flags[0] { 1nat } else { 0nat }) + count_set(flags.drop_first())
    }
}

/// How many of `actions` are notifications.
pub open spec fn count_notifications(actions: Seq<ActionModel>) -> nat
    decreases actions.len(),
{
    if actions.len() == 0 {
        0
    } else {
        (if actions[0] is Notify { 1nat } else { 0nat }) + count_notifications(actions.drop_first())
    }
}

/// What the caller of a receive call sees, the notification being delivered.
pub open spec fn visible(a: ActionModel) -> Option<StatusModel> {
    match a {
        ActionModel::Return(r) => r,
        ActionModel::Notify(_, _) => Some(StatusModel::Finished),
    }
}

/// An event on which a receive decision hands on nothing and changes nothing.
pub open spec fn inert(e: EventModel) -> bool {
    !(e matches EventModel::Received(Ok(_)))
}

/// The poller results of a stream that yields `deltas`.
pub open spec fn delta_outcomes(deltas: Seq<Seq<char>>) -> Seq<OutcomeModel> {
    deltas.map_values(|d: Seq<char>| Ok(Some(d)))
}

/// What the caller sees for each of `deltas`.
pub open spec fn working_outputs(deltas: Seq<Seq<char>>) -> Seq<Option<StatusModel>> {
    deltas.map_values(|d: Seq<char>| Some(StatusModel::Working(d)))
}

proof fn lemma_producer_prefix(p: Seq<OutcomeModel>, tail: Seq<OutcomeModel>)
    requires
        all_keep_polling(p),
    ensures
        producer_run(p + tail) == p.map_values(|o: OutcomeModel| producer_message(o)) + producer_run(
            tail,
        ),
    decreases p.len(),
{
    let f = |o: OutcomeModel| producer_message(o);
    if p.len() == 0 {
        assert(p + tail =~= tail);
        assert(p.map_values(f) + producer_run(tail) =~= producer_run(tail));
    } else {
        assert(keeps_polling(p[0]));
        assert((p + tail)[0] == p[0]);
        assert((p + tail).drop_first() =~= p.drop_first() + tail);
        assert(all_keep_polling(p.drop_first())) by {
            assert forall|i: int| 0 <= i < p.drop_first().len() implies #[trigger] keeps_polling(
                p.drop_first()[i],
            ) by {
                assert(keeps_polling(p[i + 1]));
            }
        }
        lemma_producer_prefix(p.drop_first(), tail);
        assert(p.map_values(f) =~= seq![f(p[0])] + p.drop_first().map_values(f));
        assert(producer_run(p + tail) =~= seq![f(p[0])] + (p.drop_first().map_values(f)
            + producer_run(tail)));
    }
}

proof fn lemma_consumer_run_len(h: HandlerModel, agent: Seq<char>, events: Seq<EventModel>)
    ensures
        consumer_run(h, agent, events).1.len() == events.len(),
    decreases events.len(),
{
    if events.len() > 0 {
        lemma_consumer_run_len(consumer_step(h, agent, events[0]).0, agent, events.drop_first());
    }
}

proof fn lemma_consumer_concat(
    h: HandlerModel,
    agent: Seq<char>,
    e1: Seq<EventModel>,
    e2: Seq<EventModel>,
)
    ensures
        consumer_run(h, agent, e1 + e2) == (
            consumer_run(consumer_run(h, agent, e1).0, agent, e2).0,
            consumer_run(h, agent, e1).1 + consumer_run(consumer_run(h, agent, e1).0, agent, e2).1,
        ),
    decreases e1.len(),
{
    if e1.len() == 0 {
        assert(e1 + e2 =~= e2);
        assert(consumer_run(h, agent, e1).1 + consumer_run(h, agent, e2).1 =~= consumer_run(
            h,
            agent,
            e2,
        ).1);
    } else {
        let first = consumer_step(h, agent, e1[0]);
        assert((e1 + e2)[0] == e1[0]);
        assert((e1 + e2).drop_first() =~= e1.drop_first() + e2);
        lemma_consumer_concat(first.0, agent, e1.drop_first(), e2);
        let mid = consumer_run(h, agent, e1).0;
        assert(seq![first.1] + (consumer_run(first.0, agent, e1.drop_first()).1 + consumer_run(
            mid,
            agent,
            e2,
        ).1) =~= (seq![first.1] + consumer_run(first.0, agent, e1.drop_first()).1)
            + consumer_run(mid, agent, e2).1);
    }
}

/// An inert event inserted anywhere among `events` changes neither the final
/// state nor any other receive call's result: its own call returns nothing.
pub proof fn lemma_inert_event_is_transparent(
    h: HandlerModel,
    agent: Seq<char>,
    events: Seq<EventModel>,
    i: int,
    e: EventModel,
)
    requires
        0 <= i <= events.len(),
        inert(e),
    ensures
        consumer_run(h, agent, events.insert(i, e)).0 == consumer_run(h, agent, events).0,
        consumer_run(h, agent, events.insert(i, e)).1 == consumer_run(h, agent, events).1.insert(
            i,
            ActionModel::Return(None),
        ),
{
    let pre = events.take(i);
    let post = events.skip(i);
    assert(events =~= pre + post);
    assert(events.insert(i, e) =~= pre + (seq![e] + post));
    lemma_consumer_concat(h, agent, pre, post);
    lemma_consumer_concat(h, agent, pre, seq![e] + post);
    let mid = consumer_run(h, agent, pre).0;
    lemma_consumer_concat(mid, agent, seq![e], post);
    assert(seq![e].drop_first() =~= Seq::<EventModel>::empty());
    assert(consumer_step(mid, agent, e) == (mid, ActionModel::Return(None))) by {
        match e {
            EventModel::Received(m) => {
                assert(m is Err);
            },
            _ => {},
        }
    }
    assert(consumer_run(mid, agent, Seq::<EventModel>::empty()) == (mid, Seq::<ActionModel>::empty()));
    assert(seq![ActionModel::Return(None)] + Seq::<ActionModel>::empty() =~= seq![ActionModel::Return(None)]);
    assert(consumer_run(mid, agent, seq![e]) == (mid, seq![ActionModel::Return(None)]));
    lemma_consumer_run_len(h, agent, pre);
    let a_pre = consumer_run(h, agent, pre).1;
    let a_post = consumer_run(mid, agent, post).1;
    assert((a_pre + a_post).insert(i, ActionModel::Return(None)) =~= a_pre + (seq![
        ActionModel::Return(None),
    ] + a_post));
}

/// A receive call that times out returns nothing and loses nothing: with a
/// timeout inserted anywhere, every other call returns what it returned
/// without it, and the handler ends in the same state.
pub proof fn lemma_timeout_loses_nothing(
    h: HandlerModel,
    agent: Seq<char>,
    events: Seq<EventModel>,
    i: int,
)
    requires
        0 <= i <= events.len(),
    ensures
        consumer_run(h, agent, events.insert(i, EventModel::TimedOut)).0 == consumer_run(
            h,
            agent,
            events,
        ).0,
        consumer_run(h, agent, events.insert(i, EventModel::TimedOut)).1 == consumer_run(
            h,
            agent,
            events,
        ).1.insert(i, ActionModel::Return(None)),
{
    lemma_inert_event_is_transparent(h, agent, events, i, EventModel::TimedOut);
}

/// The consumer's state and actions when it receives all that the background
/// task sends for `outcomes`.
pub open spec fn pipeline(h: HandlerModel, agent: Seq<char>, outcomes: Seq<OutcomeModel>) -> (
    HandlerModel,
    Seq<ActionModel>,
) {
    consumer_run(h, agent, received(producer_run(outcomes)))
}

proof fn lemma_delta_outcomes_keep_polling(deltas: Seq<Seq<char>>)
    ensures
        all_keep_polling(delta_outcomes(deltas)),
{
    assert forall|i: int| 0 <= i < delta_outcomes(deltas).len() implies #[trigger] keeps_polling(
        delta_outcomes(deltas)[i],
    ) by {
        assert(delta_outcomes(deltas)[i] == Ok::<Option<Seq<char>>, ProviderErrorModel>(
            Some(deltas[i]),
        ));
    }
}

proof fn lemma_consumer_workings(h: HandlerModel, agent: Seq<char>, deltas: Seq<Seq<char>>)
    ensures
        consumer_run(
            h,
            agent,
            received(delta_outcomes(deltas).map_values(|o: OutcomeModel| producer_message(o))),
        ) == (
            HandlerModel { content: h.content + deltas.flatten(), ..h },
            deltas.map_values(|d: Seq<char>| ActionModel::Return(Some(StatusModel::Working(d)))),
        ),
    decreases deltas.len(),
{
    let f = |o: OutcomeModel| producer_message(o);
    let g = |d: Seq<char>| ActionModel::Return(Some(StatusModel::Working(d)));
    let evs = received(delta_outcomes(deltas).map_values(f));
    if deltas.len() == 0 {
        assert(evs =~= Seq::<EventModel>::empty());
        assert(h.content + deltas.flatten() =~= h.content);
        assert(deltas.map_values(g) =~= Seq::<ActionModel>::empty());
    } else {
        let rest = deltas.drop_first();
        assert(evs[0] == EventModel::Received(Ok(StatusModel::Working(deltas[0]))));
        assert(evs.drop_first() =~= received(delta_outcomes(rest).map_values(f)));
        let h1 = HandlerModel { content: h.content + deltas[0], ..h };
        lemma_consumer_workings(h1, agent, rest);
        assert(h1.content + rest.flatten() =~= h.content + deltas.flatten());
        assert(seq![g(deltas[0])] + rest.map_values(g) =~= deltas.map_values(g));
    }
}

/// A stream of deltas followed by its end makes the consumer see each delta,
/// in order, then one `Finished`; the text it accumulates, and the one
/// notification it asks for, is the concatenation of the deltas.
pub proof fn lemma_deltas_then_end(h: HandlerModel, agent: Seq<char>, deltas: Seq<Seq<char>>)
    requires
        h.content == Seq::<char>::empty(),
        !h.finished,
    ensures
        pipeline(h, agent, delta_outcomes(deltas).push(Ok(None))).1.map_values(
            |a: ActionModel| visible(a),
        ) == working_outputs(deltas).push(Some(StatusModel::Finished)),
        pipeline(h, agent, delta_outcomes(deltas).push(Ok(None))).0.content == deltas.flatten(),
        pipeline(h, agent, delta_outcomes(deltas).push(Ok(None))).1.last() == ActionModel::Notify(
            agent,
            deltas.flatten(),
        ),
        count_notifications(pipeline(h, agent, delta_outcomes(deltas).push(Ok(None))).1) == 1,
{
    let f = |o: OutcomeModel| producer_message(o);
    let g = |d: Seq<char>| ActionModel::Return(Some(StatusModel::Working(d)));
    let end: OutcomeModel = Ok(None);
    let outs = delta_outcomes(deltas);
    lemma_delta_outcomes_keep_polling(deltas);
    assert(outs.push(end) =~= outs + seq![end]);
    lemma_producer_prefix(outs, seq![end]);
    assert(seq![end].drop_first() =~= Seq::<OutcomeModel>::empty());
    assert(producer_run(seq![end]) == seq![Ok::<StatusModel, ErrorModel>(StatusModel::Finished)]);
    let w = outs.map_values(f);
    let fin = EventModel::Received(Ok(StatusModel::Finished));
    assert(received(w + seq![Ok::<StatusModel, ErrorModel>(StatusModel::Finished)]) =~= received(w)
        + seq![fin]);
    lemma_consumer_concat(h, agent, received(w), seq![fin]);
    lemma_consumer_workings(h, agent, deltas);
    let h1 = HandlerModel { content: h.content + deltas.flatten(), ..h };
    assert(h1.content =~= deltas.flatten());
    assert(seq![fin].drop_first() =~= Seq::<EventModel>::empty());
    let note = ActionModel::Notify(agent, h1.content);
    let h2 = consumer_step(h1, agent, fin).0;
    assert(consumer_run(h2, agent, Seq::<EventModel>::empty()).1 == Seq::<ActionModel>::empty());
    assert(consumer_run(h1, agent, seq![fin]).1 =~= seq![note]);
    let acts = deltas.map_values(g) + seq![note];
    assert(pipeline(h, agent, outs.push(end)).1 == acts);
    assert(acts.map_values(|a: ActionModel| visible(a)) =~= working_outputs(deltas).push(
        Some(StatusModel::Finished),
    ));
    assert(count_notifications(acts) == 1) by {
        lemma_count_notifications_concat(deltas.map_values(g), seq![note]);
        assert forall|i: int| 0 <= i < deltas.map_values(g).len() implies #[trigger] deltas.map_values(
            g,
        )[i] is Return by {}
        lemma_no_notifications(deltas.map_values(g));
        assert(seq![note].drop_first() =~= Seq::<ActionModel>::empty());
        assert(count_notifications(Seq::<ActionModel>::empty()) == 0);
    }
}

proof fn lemma_count_notifications_concat(a: Seq<ActionModel>, b: Seq<ActionModel>)
    ensures
        count_notifications(a + b) == count_notifications(a) + count_notifications(b),
    decreases a.len(),
{
    if a.len() == 0 {
        assert(a + b =~= b);
    } else {
        assert((a + b).drop_first() =~= a.drop_first() + b);
        lemma_count_notifications_concat(a.drop_first(), b);
    }
}

proof fn lemma_no_notifications(a: Seq<ActionModel>)
    requires
        forall|i: int| 0 <= i < a.len() ==> #[trigger] a[i] is Return,
    ensures
        count_notifications(a) == 0,
    decreases a.len(),
{
    if a.len() > 0 {
        assert(a[0] is Return);
        assert forall|i: int| 0 <= i < a.drop_first().len() implies #[trigger] a.drop_first()[i] is Return by {
            assert(a[i + 1] is Return);
        }
        lemma_no_notifications(a.drop_first());
    }
}

/// A recoverable error from the poller, anywhere before the loop stops, does
/// not end the background task and changes nothing the consumer observes:
/// the receive call that gets it returns nothing, every other call returns
/// what it would have returned without it, and the final state is the same.
pub proof fn lemma_recoverable_error_is_transparent(
    h: HandlerModel,
    agent: Seq<char>,
    p: Seq<OutcomeModel>,
    q: Seq<OutcomeModel>,
)
    requires
        all_keep_polling(p),
    ensures
        producer_run(p + seq![Err(ProviderErrorModel::Recoverable)] + q) == producer_run(p + q).insert(
            p.len() as int,
            Err(ErrorModel::Retry),
        ),
        pipeline(h, agent, p + seq![Err(ProviderErrorModel::Recoverable)] + q).0 == pipeline(
            h,
            agent,
            p + q,
        ).0,
        pipeline(h, agent, p + seq![Err(ProviderErrorModel::Recoverable)] + q).1 == pipeline(
            h,
            agent,
            p + q,
        ).1.insert(p.len() as int, ActionModel::Return(None)),
{
    let f = |o: OutcomeModel| producer_message(o);
    let rec: OutcomeModel = Err(ProviderErrorModel::Recoverable);
    let retry: MessageModel = Err(ErrorModel::Retry);
    assert(p + seq![rec] + q =~= p + (seq![rec] + q));
    lemma_producer_prefix(p, seq![rec] + q);
    lemma_producer_prefix(p, q);
    assert((seq![rec] + q)[0] == rec);
    assert((seq![rec] + q).drop_first() =~= q);
    let a = p.map_values(f);
    let b = producer_run(q);
    assert(producer_run(seq![rec] + q) == seq![retry] + b);
    assert(a + (seq![retry] + b) =~= (a + b).insert(p.len() as int, retry));
    assert(received((a + b).insert(p.len() as int, retry)) =~= received(a + b).insert(
        p.len() as int,
        EventModel::Received(retry),
    ));
    lemma_inert_event_is_transparent(h, agent, received(a + b), p.len() as int, EventModel::Received(retry));
}

/// A poller result after which the background task stops polling (the end
/// of the stream, or a terminal error) is the last value it sends: whatever
/// the poller would have returned afterwards is never sent.
pub proof fn lemma_stopping_result_is_last(
    p: Seq<OutcomeModel>,
    o: OutcomeModel,
    q: Seq<OutcomeModel>,
)
    requires
        all_keep_polling(p),
        !keeps_polling(o),
    ensures
        producer_run(p + seq![o] + q) == producer_run(p).push(producer_message(o)),
{
    let f = |x: OutcomeModel| producer_message(x);
    assert(p + seq![o] + q =~= p + (seq![o] + q));
    lemma_producer_prefix(p, seq![o] + q);
    lemma_producer_prefix(p, Seq::empty());
    assert(p + Seq::<OutcomeModel>::empty() =~= p);
    assert((seq![o] + q)[0] == o);
    assert(p.map_values(f) + Seq::<MessageModel>::empty() =~= p.map_values(f));
    assert(p.map_values(f) + seq![f(o)] =~= p.map_values(f).push(f(o)));
}

/// A terminal error from the poller, anywhere before the loop stops, is the
/// last value the background task sends: no `Working` or `Finished` follows.
pub proof fn lemma_terminal_error_ends_run(
    p: Seq<OutcomeModel>,
    message: Seq<char>,
    q: Seq<OutcomeModel>,
)
    requires
        all_keep_polling(p),
    ensures
        producer_run(p + seq![Err(ProviderErrorModel::Terminal(message))] + q) == producer_run(p).push(
            Err(ErrorModel::Provider(ProviderErrorModel::Terminal(message))),
        ),
{
    lemma_stopping_result_is_last(p, Err(ProviderErrorModel::Terminal(message)), q);
}

proof fn lemma_consumer_step_monotone(h: HandlerModel, agent: Seq<char>, e: EventModel)
    ensures
        consumer_step(h, agent, e).0.spawned == h.spawned,
        h.finished ==> consumer_step(h, agent, e).0.finished,
        consumer_step(h, agent, e).1 is Notify ==> !h.finished && consumer_step(h, agent, e).0.finished,
{
}

/// However many receive calls are made, and whatever each of them sees, the
/// background task is spawned at most once: by the first call of a handler
/// that has not yet handed out its resources, and by no other.
pub proof fn lemma_spawn_at_most_once(h: HandlerModel, agent: Seq<char>, events: Seq<EventModel>)
    ensures
        count_set(calls_run(h, agent, events).1) == (if !h.spawned && events.len() > 0 {
            1nat
        } else {
            0nat
        }),
        count_set(calls_run(h, agent, events).1) <= 1,
        events.len() > 0 ==> calls_run(h, agent, events).0.spawned,
    decreases events.len(),
{
    if events.len() > 0 {
        let s = spawn_step(h);
        lemma_consumer_step_monotone(s.0, agent, events[0]);
        let first = consumer_step(s.0, agent, events[0]);
        lemma_spawn_at_most_once(first.0, agent, events.drop_first());
        let flags = calls_run(h, agent, events).1;
        assert(flags.drop_first() =~= calls_run(first.0, agent, events.drop_first()).1);
    }
}

/// Over all receive decisions of one handler, at most one asks for the
/// notification, and none once the end of generation has been observed.
pub proof fn lemma_notification_at_most_once(
    h: HandlerModel,
    agent: Seq<char>,
    events: Seq<EventModel>,
)
    ensures
        count_notifications(consumer_run(h, agent, events).1) <= (if h.finished {
            0nat
        } else {
            1nat
        }),
        h.finished ==> consumer_run(h, agent, events).0.finished,
    decreases events.len(),
{
    if events.len() > 0 {
        lemma_consumer_step_monotone(h, agent, events[0]);
        let first = consumer_step(h, agent, events[0]);
        lemma_notification_at_most_once(first.0, agent, events.drop_first());
        let acts = consumer_run(h, agent, events).1;
        assert(acts.drop_first() =~= consumer_run(first.0, agent, events.drop_first()).1);
    }
}

/// A notification is asked for only by a receive call that observed
/// `Finished`, and carries the handler's agent and all the text accumulated up
/// to and including that call.
pub proof fn lemma_notification_carries_text(
    h: HandlerModel,
    agent: Seq<char>,
    events: Seq<EventModel>,
    i: int,
)
    requires
        0 <= i < events.len(),
        consumer_run(h, agent, events).1[i] is Notify,
    ensures
        events[i] == EventModel::Received(Ok(StatusModel::Finished)),
        consumer_run(h, agent, events).1[i] == ActionModel::Notify(
            agent,
            consumer_run(h, agent, events.take(i + 1)).0.content,
        ),
{
    let pre = events.take(i);
    let post = events.skip(i);
    assert(events =~= pre + post);
    lemma_consumer_concat(h, agent, pre, post);
    lemma_consumer_run_len(h, agent, pre);
    let mid = consumer_run(h, agent, pre).0;
    assert(post[0] == events[i]);
    let step = consumer_step(mid, agent, events[i]);
    assert(consumer_run(h, agent, events).1[i] == consumer_run(mid, agent, post).1[0]);
    assert(events.take(i + 1) =~= pre + seq![events[i]]);
    lemma_consumer_concat(h, agent, pre, seq![events[i]]);
    assert(seq![events[i]].drop_first() =~= Seq::<EventModel>::empty());
    assert(consumer_run(step.0, agent, Seq::<EventModel>::empty()).0 == step.0);
    assert(consumer_run(mid, agent, seq![events[i]]).0 == step.0);
}

/// The accumulated text never shrinks or resets: whatever the receive
/// decisions see, the text they started from is a prefix of the text they end
/// with.
pub proof fn lemma_content_only_grows(h: HandlerModel, agent: Seq<char>, events: Seq<EventModel>)
    ensures
        h.content.len() <= consumer_run(h, agent, events).0.content.len(),
        consumer_run(h, agent, events).0.content.subrange(0, h.content.len() as int) == h.content,
    decreases events.len(),
{
    if events.len() > 0 {
        let first = consumer_step(h, agent, events[0]);
        lemma_content_only_grows(first.0, agent, events.drop_first());
        let last = consumer_run(h, agent, events).0.content;
        assert(first.0.content.subrange(0, h.content.len() as int) =~= h.content);
        assert(last.subrange(0, h.content.len() as int) =~= last.subrange(
            0,
            first.0.content.len() as int,
        ).subrange(0, h.content.len() as int));
    }
}

} // verus!
