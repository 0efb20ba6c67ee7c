//! The dispatch loop as a state machine.
//!
//! A loop on a live channel blocks while it waits and has no bound on its
//! length, so it runs outside this library. Each time the channel yields,
//! the driver hands the outcome and the consumer's handler to [`step`],
//! which normalizes, delivers, checks the handler's answer and gives the
//! next state. [`run`] is that loop over a stream that is there already.
//! [`run_spec`] is the loop as a whole, and the laws in this file are
//! stated of it.

use crate::error::{WatchError, WatchErrorView};
use crate::event::{NotifyEvent, NotifyEventView};
use crate::normalize::{normalize, normalize_spec};
use crate::raw::{RawEvent, RawEventView};
use vstd::prelude::*;

verus! {

/// What the platform's channel yields when the loop asks for the next item.
#[derive(Debug, PartialEq, Eq)]
pub enum RawOutcome<P> {
    /// A change notification.
    Event(RawEvent<P>),
    /// A failure of the platform's facility, with its message.
    Error(String),
    /// The channel is exhausted: the facility is gone.
    End,
}

/// The mathematical value of a [`RawOutcome`].
pub enum RawOutcomeView<P> {
    Event(RawEventView<P>),
    Error(Seq<char>),
    End,
}

impl<P> View for RawOutcome<P> {
    type V = RawOutcomeView<P>;

    open spec fn view(&self) -> RawOutcomeView<P> {
        match self {
            RawOutcome::Event(raw) => RawOutcomeView::Event(raw@),
            RawOutcome::Error(message) => RawOutcomeView::Error(message@),
            RawOutcome::End => RawOutcomeView::End,
        }
    }
}

/// The state of the dispatch loop.
#[derive(Debug, PartialEq, Eq)]
pub enum LoopState {
    /// Waiting for the next raw event.
    Running,
    /// The handler asked to stop. The loop ended in success.
    StoppedByHandler,
    /// The loop ended with an error.
    Failed(WatchError),
    /// The channel was exhausted. The loop ended in success.
    Closed,
}

/// The mathematical value of a [`LoopState`].
pub enum LoopStateView {
    Running,
    StoppedByHandler,
    Failed(WatchErrorView),
    Closed,
}

impl View for LoopState {
    type V = LoopStateView;

    open spec fn view(&self) -> LoopStateView {
        match self {
            LoopState::Running => LoopStateView::Running,
            LoopState::StoppedByHandler => LoopStateView::StoppedByHandler,
            LoopState::Failed(error) => LoopStateView::Failed(error@),
            LoopState::Closed => LoopStateView::Closed,
        }
    }
}

/// What the handler answered: `Ok(true)` to go on, `Ok(false)` to stop,
/// `Err` with its message when it failed.
pub type Reply = Result<bool, String>;

/// The mathematical value of a [`Reply`].
pub type ReplyView = Result<bool, Seq<char>>;

/// The value of a handler's answer.
pub open spec fn reply_view(reply: Reply) -> ReplyView {
    match reply {
        Ok(go_on) => Ok(go_on),
        Err(message) => Err(message@),
    }
}

impl LoopStateView {
    /// What the run returns once the loop is in this state: nothing yet
    /// while it runs, the error if it failed, success otherwise.
    pub open spec fn result(self) -> Option<Result<(), WatchErrorView>> {
        match self {
            LoopStateView::Running => None,
            LoopStateView::StoppedByHandler => Some(Ok(())),
            LoopStateView::Failed(error) => Some(Err(error)),
            LoopStateView::Closed => Some(Ok(())),
        }
    }
}

/// The state after the handler has answered for a delivered event.
pub open spec fn settle_spec(reply: ReplyView) -> LoopStateView {
    match reply {
        Ok(true) => LoopStateView::Running,
        Ok(false) => LoopStateView::StoppedByHandler,
        Err(message) => LoopStateView::Failed(WatchErrorView::HandlerFailure(message)),
    }
}

/// True if the loop, in `state`, delivers what `outcome` brings.
pub open spec fn delivers<P>(state: LoopStateView, outcome: RawOutcomeView<P>) -> bool {
    state is Running && outcome is Event
}

/// One transition of the loop. `reply` is the handler's answer for the
/// delivered event and counts only where [`delivers`] holds. A loop that
/// has ended stays as it is: what the channel still holds is dropped.
pub open spec fn transition<P>(
    state: LoopStateView,
    outcome: RawOutcomeView<P>,
    reply: ReplyView,
) -> LoopStateView {
    match state {
        LoopStateView::Running => match outcome {
            RawOutcomeView::Event(_) => settle_spec(reply),
            RawOutcomeView::Error(message) => LoopStateView::Failed(
                WatchErrorView::Platform(message),
            ),
            RawOutcomeView::End => LoopStateView::Closed,
        },
        _ => state,
    }
}

impl LoopState {
    /// True while the loop waits for the next raw event.
    pub fn is_running(&self) -> (running: bool)
        ensures
            running == (self@ is Running),
    {
        match self {
            LoopState::Running => true,
            _ => false,
        }
    }

    /// What the run returns: `None` while the loop runs, the error if it
    /// failed, success if the handler stopped it or the channel closed.
    pub fn into_result(self) -> (result: Option<Result<(), WatchError>>)
        ensures
            match self@.result() {
                None => result is None,
                Some(Ok(())) => result == Some(Ok::<(), WatchError>(())),
                Some(Err(error)) => result matches Some(Err(e)) && e@ == error,
            },
    {
        match self {
            LoopState::Running => None,
            LoopState::StoppedByHandler => Some(Ok(())),
            LoopState::Failed(error) => Some(Err(error)),
            LoopState::Closed => Some(Ok(())),
        }
    }
}

/// Decides on the handler's answer for one delivered event: go on, stop in
/// success, or fail with the handler's message unchanged.
pub fn settle(reply: Reply) -> (next: LoopState)
    ensures
        next@ == settle_spec(reply_view(reply)),
{
    match reply {
        Ok(true) => LoopState::Running,
        Ok(false) => LoopState::StoppedByHandler,
        Err(message) => LoopState::Failed(WatchError::HandlerFailure(message)),
    }
}

/// Takes the loop through one outcome of the channel.
///
/// A running loop normalizes an event, hands it to `handler` once and
/// settles on the answer; it fails on a platform error and closes at the
/// end of the channel. A loop that has ended drops the outcome and leaves
/// the handler alone.
pub fn step<P, H>(state: LoopState, outcome: RawOutcome<P>, handler: H) -> (next: LoopState) where
    H: FnOnce(NotifyEvent<P>) -> Reply,

    requires
        delivers(state@, outcome@) ==> forall|event: NotifyEvent<P>|
            event@ == normalize_spec(outcome@->Event_0) ==> call_requires(handler, (event,)),
    ensures
        delivers(state@, outcome@) ==> exists|event: NotifyEvent<P>, reply: Reply|
            event@ == normalize_spec(outcome@->Event_0) && call_ensures(handler, (event,), reply)
                && next@ == transition(state@, outcome@, reply_view(reply)),
        !delivers(state@, outcome@) ==> forall|reply: ReplyView|
            next@ == transition(state@, outcome@, reply),
{
    match state {
        LoopState::Running => match outcome {
            RawOutcome::Event(raw) => {
                let event = normalize(raw);
                let reply = handler(event);
                settle(reply)
            },
            RawOutcome::Error(message) => LoopState::Failed(WatchError::Platform(message)),
            RawOutcome::End => LoopState::Closed,
        },
        ended => ended,
    }
}

/// What a run has come to: the state of the loop and the events handed to
/// the handler so far, first delivered first.
pub struct RunView<P> {
    pub state: LoopStateView,
    pub delivered: Seq<NotifyEventView<P>>,
}

/// The loop as a whole: what a fresh loop has come to once the channel has
/// yielded `stream`, item by item. `handler(n, event)` is the handler's
/// answer when `event` is its `n`-th delivery, counted from zero.
pub open spec fn run_spec<P>(
    stream: Seq<RawOutcomeView<P>>,
    handler: spec_fn(int, NotifyEventView<P>) -> ReplyView,
) -> RunView<P>
    decreases stream.len(),
{
    if stream.len() == 0 {
        RunView { state: LoopStateView::Running, delivered: Seq::empty() }
    } else {
        let before = run_spec(stream.drop_last(), handler);
        let outcome = stream.last();
        let event = normalize_spec(outcome->Event_0);
        let reply = handler(before.delivered.len() as int, event);
        RunView {
            state: transition(before.state, outcome, reply),
            delivered: if delivers(before.state, outcome) {
                before.delivered.push(event)
            } else {
                before.delivered
            },
        }
    }
}

/// A stream that holds the given events and nothing else.
pub open spec fn events_stream<P>(events: Seq<RawEventView<P>>) -> Seq<RawOutcomeView<P>> {
    Seq::new(events.len(), |i: int| RawOutcomeView::Event(events[i]))
}

/// The canonical events for the given raw ones, in their order.
pub open spec fn normalized<P>(events: Seq<RawEventView<P>>) -> Seq<NotifyEventView<P>> {
    Seq::new(events.len(), |i: int| normalize_spec(events[i]))
}

/// The values of a list of outcomes, in order.
pub open spec fn outcome_views<P>(stream: Seq<RawOutcome<P>>) -> Seq<RawOutcomeView<P>> {
    Seq::new(stream.len(), |i: int| stream[i]@)
}

/// The value of what a run returns.
pub open spec fn result_view(result: Result<(), WatchError>) -> Result<(), WatchErrorView> {
    match result {
        Ok(()) => Ok(()),
        Err(error) => Err(error@),
    }
}

/// The handler that gives `answers`, one for each delivery, in order.
pub open spec fn answering<P>(answers: Seq<Reply>) -> spec_fn(
    int,
    NotifyEventView<P>,
) -> ReplyView {
    |n: int, event: NotifyEventView<P>|
        if 0 <= n < answers.len() {
            reply_view(answers[n])
        } else {
            Ok(true)
        }
}

/// True if `handler`, handed the event `delivered`, may answer `answer`.
pub open spec fn gave<P, H: Fn(NotifyEvent<P>) -> Reply>(
    handler: H,
    delivered: NotifyEventView<P>,
    answer: Reply,
) -> bool {
    exists|event: NotifyEvent<P>| event@ == delivered && call_ensures(handler, (event,), answer)
}

/// True if `answers` are what `handler` answered to the events
/// `delivered`, one for one.
pub open spec fn answered_by<P, H: Fn(NotifyEvent<P>) -> Reply>(
    handler: H,
    delivered: Seq<NotifyEventView<P>>,
    answers: Seq<Reply>,
) -> bool {
    &&& answers.len() == delivered.len()
    &&& forall|n: int| 0 <= n < answers.len() ==> #[trigger] gave(handler, delivered[n], answers[n])
}

/// True if `result` is what the run over a channel that yields `stream`
/// and is then exhausted returns, where `answers` are what `handler`
/// answered to the events delivered to it.
pub open spec fn run_returns<P, H: Fn(NotifyEvent<P>) -> Reply>(
    stream: Seq<RawOutcomeView<P>>,
    handler: H,
    answers: Seq<Reply>,
    result: Result<(), WatchErrorView>,
) -> bool {
    let run = run_spec(stream.push(RawOutcomeView::End), answering(answers));
    &&& answered_by(handler, run.delivered, answers)
    &&& run.state.result() == Some(result)
}

/// A run asks the handler once for each delivery and for nothing else: two
/// handlers with the same answers to the deliveries of a run give the same
/// run.
pub proof fn lemma_run_depends_on_answers_given<P>(
    stream: Seq<RawOutcomeView<P>>,
    first: spec_fn(int, NotifyEventView<P>) -> ReplyView,
    second: spec_fn(int, NotifyEventView<P>) -> ReplyView,
)
    requires
        forall|n: int, event: NotifyEventView<P>|
            0 <= n < run_spec(stream, first).delivered.len() ==> #[trigger] first(n, event)
                == second(n, event),
    ensures
        run_spec(stream, first) == run_spec(stream, second),
    decreases stream.len(),
{
    if stream.len() > 0 {
        lemma_run_depends_on_answers_given(stream.drop_last(), first, second);
        let before = run_spec(stream.drop_last(), first);
        let event = normalize_spec(stream.last()->Event_0);
        if delivers(before.state, stream.last()) {
            assert(first(before.delivered.len() as int, event) == second(
                before.delivered.len() as int,
                event,
            ));
        }
        assert(run_spec(stream, first).delivered =~= run_spec(stream, second).delivered);
    }
}

/// Runs the loop over a stream that is there already, such as a recording:
/// the channel yields the items of `stream` and is then exhausted.
///
/// The run is [`run_spec`] of that channel, under the answers that
/// `handler` gave to the events delivered to it, and returns as the state
/// it came to says: the error of a failed loop, success otherwise.
pub fn run<P, H>(stream: Vec<RawOutcome<P>>, handler: &H) -> (result: Result<(), WatchError>) where
    H: Fn(NotifyEvent<P>) -> Reply,

    requires
        forall|event: NotifyEvent<P>| call_requires(*handler, (event,)),
    ensures
        exists|answers: Seq<Reply>| #[trigger]
            run_returns(outcome_views(stream@), *handler, answers, result_view(result)),
{
    let ghost all = outcome_views(stream@);
    let ghost items = stream@;
    let ghost mut answers: Seq<Reply> = Seq::empty();
    let mut state = LoopState::Running;
    for outcome in it: stream.into_iter()
        invariant
            it.seq() == items,
            all == outcome_views(items),
            forall|event: NotifyEvent<P>| call_requires(*handler, (event,)),
            state@ == run_spec(all.take(it.index() as int), answering(answers)).state,
            answered_by(
                *handler,
                run_spec(all.take(it.index() as int), answering(answers)).delivered,
                answers,
            ),
    {
        let ghost so_far = all.take(it.index() as int);
        let ghost before = run_spec(so_far, answering::<P>(answers));
        state = step(state, outcome, handler);
        proof {
            let longer = all.take(it.index() + 1);
            assert(longer.drop_last() =~= so_far);
            assert(longer.last() == outcome@);
            if delivers(before.state, outcome@) {
                let (event, reply) = choose|event: NotifyEvent<P>, reply: Reply|
                    event@ == normalize_spec(outcome@->Event_0) && call_ensures(
                        *handler,
                        (event,),
                        reply,
                    ) && state@ == transition(before.state, outcome@, reply_view(reply));
                let grown = answers.push(reply);
                lemma_run_depends_on_answers_given(
                    so_far,
                    answering::<P>(answers),
                    answering::<P>(grown),
                );
                assert(answered_by(*handler, run_spec(longer, answering(grown)).delivered, grown))
                    by {
                    let after = run_spec(longer, answering::<P>(grown));
                    assert(run_spec(so_far, answering::<P>(grown)) == before);
                    assert(after.delivered == before.delivered.push(event@));
                    assert(after.delivered.len() == grown.len());
                    assert forall|n: int| 0 <= n < grown.len() implies #[trigger] gave(
                        *handler,
                        after.delivered[n],
                        grown[n],
                    ) by {
                        if n < answers.len() {
                            assert(gave(*handler, before.delivered[n], answers[n]));
                        } else {
                            assert(event@ == after.delivered[n]);
                        }
                    }
                }
                answers = grown;
            }
        }
    }
    let result = match state {
        LoopState::Failed(error) => Err(error),
        _ => Ok(()),
    };
    proof {
        assert(all.take(all.len() as int) =~= all);
        assert(all.push(RawOutcomeView::End).drop_last() =~= all);
        assert(run_returns(all, *handler, answers, result_view(result)));
    }
    result
}

/// A run in closed form. The deliveries are the leading items of the
/// stream, normalized, in the stream's order. Every delivery but the last
/// was answered with "go on". The state is what the last answer settles,
/// if that was not "go on"; else the loop still runs if the stream is used
/// up, and otherwise the first item not delivered was an error or the end
/// of the channel and decided the state.
pub proof fn lemma_run_closed_form<P>(
    stream: Seq<RawOutcomeView<P>>,
    handler: spec_fn(int, NotifyEventView<P>) -> ReplyView,
)
    ensures
        ({
            let run = run_spec(stream, handler);
            let n = run.delivered.len() as int;
            &&& n <= stream.len()
            &&& forall|i: int|
                0 <= i < n ==> (#[trigger] stream[i]) is Event && run.delivered[i]
                    == normalize_spec(stream[i]->Event_0)
            &&& forall|i: int|
                0 <= i < n - 1 ==> handler(i, #[trigger] run.delivered[i]) == Ok::<
                    bool,
                    Seq<char>,
                >(true)
            &&& if n > 0 && handler(n - 1, run.delivered[n - 1]) != Ok::<bool, Seq<char>>(true) {
                run.state == settle_spec(handler(n - 1, run.delivered[n - 1]))
            } else if n == stream.len() {
                run.state is Running
            } else {
                !(stream[n] is Event) && run.state == transition(
                    LoopStateView::Running,
                    stream[n],
                    Ok(true),
                )
            }
        }),
    decreases stream.len(),
{
    if stream.len() > 0 {
        let shorter = stream.drop_last();
        lemma_run_closed_form(shorter, handler);
        let before = run_spec(shorter, handler);
        let run = run_spec(stream, handler);
        assert forall|i: int| 0 <= i < shorter.len() implies shorter[i] == stream[i] by {}
        assert forall|i: int| 0 <= i < before.delivered.len() implies run.delivered[i]
            == before.delivered[i] by {}
    }
}

/// Order is kept. Whatever the stream and the handler, the `i`-th event
/// handed to the handler is the normalized `i`-th item of the stream:
/// nothing is reordered, skipped or delivered twice.
pub proof fn lemma_order_preserved<P>(
    stream: Seq<RawOutcomeView<P>>,
    handler: spec_fn(int, NotifyEventView<P>) -> ReplyView,
)
    ensures
        run_spec(stream, handler).delivered.len() <= stream.len(),
        forall|i: int|
            0 <= i < run_spec(stream, handler).delivered.len() ==> (#[trigger] stream[i]) is Event
                && run_spec(stream, handler).delivered[i] == normalize_spec(stream[i]->Event_0),
{
    lemma_run_closed_form(stream, handler);
}

/// While the handler answers "go on", every event of the stream is
/// delivered, and the loop keeps running.
pub proof fn lemma_all_delivered_while_handler_goes_on<P>(
    events: Seq<RawEventView<P>>,
    handler: spec_fn(int, NotifyEventView<P>) -> ReplyView,
)
    requires
        forall|j: int|
            0 <= j < events.len() ==> handler(j, normalize_spec(#[trigger] events[j])) == Ok::<
                bool,
                Seq<char>,
            >(true),
    ensures
        run_spec(events_stream(events), handler).state is Running,
        run_spec(events_stream(events), handler).delivered == normalized(events),
{
    let stream = events_stream(events);
    let run = run_spec(stream, handler);
    let n = run.delivered.len() as int;
    lemma_run_closed_form(stream, handler);
    if n > 0 {
        assert(stream[n - 1] is Event);
        assert(run.delivered[n - 1] == normalize_spec(events[n - 1]));
    }
    if n < stream.len() {
        assert(stream[n] is Event);
    }
    assert(run.delivered =~= normalized(events)) by {
        assert forall|i: int| 0 <= i < n implies run.delivered[i] == normalized(events)[i] by {
            assert(stream[i] is Event);
        }
    }
}

/// A loop that has ended stays ended: whatever the channel yields after
/// that is dropped, and nothing more is delivered.
pub proof fn lemma_ended_loop_stays<P>(
    stream: Seq<RawOutcomeView<P>>,
    more: Seq<RawOutcomeView<P>>,
    handler: spec_fn(int, NotifyEventView<P>) -> ReplyView,
)
    requires
        !(run_spec(stream, handler).state is Running),
    ensures
        run_spec(stream + more, handler) == run_spec(stream, handler),
    decreases more.len(),
{
    if more.len() == 0 {
        assert(stream + more =~= stream);
    } else {
        lemma_ended_loop_stays(stream, more.drop_last(), handler);
        assert((stream + more).drop_last() =~= stream + more.drop_last());
    }
}

/// A platform failure surfaces. If the channel yields an error while the
/// loop runs, the loop ends in `Failed` and the run returns that error as
/// a platform error, not success; what came before was delivered, and what
/// the channel yields afterwards is dropped.
pub proof fn lemma_platform_error_surfaces<P>(
    events: Seq<RawEventView<P>>,
    message: Seq<char>,
    rest: Seq<RawOutcomeView<P>>,
    handler: spec_fn(int, NotifyEventView<P>) -> ReplyView,
)
    requires
        forall|j: int|
            0 <= j < events.len() ==> handler(j, normalize_spec(#[trigger] events[j])) == Ok::<
                bool,
                Seq<char>,
            >(true),
    ensures
        ({
            let stream = events_stream(events).push(RawOutcomeView::<P>::Error(message)) + rest;
            let run = run_spec(stream, handler);
            &&& run.state == LoopStateView::Failed(WatchErrorView::Platform(message))
            &&& run.state.result() == Some(
                Err::<(), WatchErrorView>(WatchErrorView::Platform(message)),
            )
            &&& run.delivered == normalized(events)
        }),
{
    let failing = events_stream(events).push(RawOutcomeView::<P>::Error(message));
    lemma_all_delivered_while_handler_goes_on(events, handler);
    assert(failing.drop_last() =~= events_stream(events));
    lemma_ended_loop_stays(failing, rest, handler);
}

/// The end of the channel closes the loop. If the channel is exhausted
/// while the loop runs, the loop ends in `Closed` and the run returns
/// success; what came before was delivered.
pub proof fn lemma_channel_end_closes<P>(
    events: Seq<RawEventView<P>>,
    rest: Seq<RawOutcomeView<P>>,
    handler: spec_fn(int, NotifyEventView<P>) -> ReplyView,
)
    requires
        forall|j: int|
            0 <= j < events.len() ==> handler(j, normalize_spec(#[trigger] events[j])) == Ok::<
                bool,
                Seq<char>,
            >(true),
    ensures
        ({
            let stream = events_stream(events).push(RawOutcomeView::<P>::End) + rest;
            let run = run_spec(stream, handler);
            &&& run.state == LoopStateView::Closed
            &&& run.state.result() == Some(Ok::<(), WatchErrorView>(()))
            &&& run.delivered == normalized(events)
        }),
{
    let closing = events_stream(events).push(RawOutcomeView::<P>::End);
    lemma_all_delivered_while_handler_goes_on(events, handler);
    assert(closing.drop_last() =~= events_stream(events));
    lemma_ended_loop_stays(closing, rest, handler);
}

/// The first answer that is not "go on" ends the loop. Of a stream that
/// starts with the given events, if the handler answers "go on" up to the
/// `k`-th event and otherwise on the `k`-th, exactly the first `k` events
/// are delivered, in order, and the loop comes to the state that the
/// `k`-th answer settles. Whatever follows in the stream is dropped.
pub proof fn lemma_first_other_answer_ends<P>(
    events: Seq<RawEventView<P>>,
    rest: Seq<RawOutcomeView<P>>,
    handler: spec_fn(int, NotifyEventView<P>) -> ReplyView,
    k: int,
)
    requires
        1 <= k <= events.len(),
        forall|j: int|
            0 <= j < k - 1 ==> handler(j, normalize_spec(#[trigger] events[j])) == Ok::<
                bool,
                Seq<char>,
            >(true),
        handler(k - 1, normalize_spec(events[k - 1])) != Ok::<bool, Seq<char>>(true),
    ensures
        run_spec(events_stream(events) + rest, handler).delivered == normalized(events.take(k)),
        run_spec(events_stream(events) + rest, handler).state == settle_spec(
            handler(k - 1, normalize_spec(events[k - 1])),
        ),
{
    let stream = events_stream(events);
    let run = run_spec(stream, handler);
    let n = run.delivered.len() as int;
    lemma_run_closed_form(stream, handler);
    if n > 0 {
        assert(stream[n - 1] is Event);
        assert(run.delivered[n - 1] == normalize_spec(events[n - 1]));
    }
    if n < k {
        assert(stream[n] is Event);
        assert(false);
    }
    if n > k {
        assert(stream[k - 1] is Event);
        assert(handler(k - 1, run.delivered[k - 1]) == Ok::<bool, Seq<char>>(true));
        assert(false);
    }
    assert(run.delivered =~= normalized(events.take(k))) by {
        assert forall|i: int| 0 <= i < k implies run.delivered[i] == normalized(
            events.take(k),
        )[i] by {
            assert(stream[i] is Event);
        }
    }
    lemma_ended_loop_stays(stream, rest, handler);
}

/// Stop on false. Of a stream that starts with the given events, if the
/// handler answers "go on" up to the `k`-th event and "stop" on the
/// `k`-th, exactly the first `k` events are delivered, in order, the loop
/// ends in `StoppedByHandler`, and the run returns success. The events
/// after the `k`-th, and whatever else follows, are not delivered.
pub proof fn lemma_stop_on_false<P>(
    events: Seq<RawEventView<P>>,
    rest: Seq<RawOutcomeView<P>>,
    handler: spec_fn(int, NotifyEventView<P>) -> ReplyView,
    k: int,
)
    requires
        1 <= k <= events.len(),
        forall|j: int|
            0 <= j < k - 1 ==> handler(j, normalize_spec(#[trigger] events[j])) == Ok::<
                bool,
                Seq<char>,
            >(true),
        handler(k - 1, normalize_spec(events[k - 1])) == Ok::<bool, Seq<char>>(false),
    ensures
        run_spec(events_stream(events) + rest, handler).delivered == normalized(events.take(k)),
        run_spec(events_stream(events) + rest, handler).state == LoopStateView::StoppedByHandler,
        run_spec(events_stream(events) + rest, handler).state.result() == Some(
            Ok::<(), WatchErrorView>(()),
        ),
{
    lemma_first_other_answer_ends(events, rest, handler, k);
}

/// A failure of the handler ends the loop at once, with the handler's
/// message unchanged: the events after the one it failed on are not
/// delivered, and the run returns the failure.
pub proof fn lemma_handler_failure_propagates<P>(
    events: Seq<RawEventView<P>>,
    rest: Seq<RawOutcomeView<P>>,
    handler: spec_fn(int, NotifyEventView<P>) -> ReplyView,
    k: int,
    message: Seq<char>,
)
    requires
        1 <= k <= events.len(),
        forall|j: int|
            0 <= j < k - 1 ==> handler(j, normalize_spec(#[trigger] events[j])) == Ok::<
                bool,
                Seq<char>,
            >(true),
        handler(k - 1, normalize_spec(events[k - 1])) == Err::<bool, Seq<char>>(message),
    ensures
        run_spec(events_stream(events) + rest, handler).delivered == normalized(events.take(k)),
        run_spec(events_stream(events) + rest, handler).state.result() == Some(
            Err::<(), WatchErrorView>(WatchErrorView::HandlerFailure(message)),
        ),
{
    lemma_first_other_answer_ends(events, rest, handler, k);
}

} // verus!
