//! The run over the source chat: message after message in the order of
//! arrival, each one to its end before the next is fetched, with a pause
//! after each.

use vstd::prelude::*;
use vstd::string::*;
use crate::config::{Config, Settings};
use crate::forward::{
    begin_forward, forward_message, spec_begin_forward, spec_forward_error_message,
    spec_forward_message, ForwardAction, ForwardActionView, ForwardError, ForwardErrorView,
    ForwardEvent, ForwardOutcome, ForwardState,
};
use crate::text::{
    spec_unexpected_message, spec_with_context, unexpected_message, with_context,
};
use crate::message::{spec_outgoing_text, SourceMessage};

verus! {

/// Why the run ended before the source was exhausted.
#[derive(Clone, Debug, PartialEq, Eq)]
pub enum PipelineError {
    NextMessage { cause: String },
    ForwardMessage(ForwardError),
    /// The caller reported something that the state was not waiting for.
    Unexpected,
}

pub ghost enum PipelineErrorView {
    NextMessage { cause: Seq<char> },
    ForwardMessage(ForwardErrorView),
    Unexpected,
}

impl View for PipelineError {
    type V = PipelineErrorView;

    open spec fn view(&self) -> PipelineErrorView {
        match *self {
            PipelineError::NextMessage { cause } => PipelineErrorView::NextMessage {
                cause: cause@,
            },
            PipelineError::ForwardMessage(error) => PipelineErrorView::ForwardMessage(error@),
            PipelineError::Unexpected => PipelineErrorView::Unexpected,
        }
    }
}

/// The failure in words: what was attempted, from the outermost attempt
/// inwards, and what went wrong.
pub open spec fn spec_pipeline_error_message(error: PipelineErrorView) -> Seq<char> {
    match error {
        PipelineErrorView::NextMessage { cause } => spec_with_context(
            "Failed to get next message"@,
            cause,
        ),
        PipelineErrorView::ForwardMessage(inner) => spec_with_context(
            "Failed to forward message"@,
            spec_forward_error_message(inner),
        ),
        PipelineErrorView::Unexpected => spec_unexpected_message(),
    }
}

impl PipelineError {
    /// The failure in words.
    pub fn message(&self) -> (message: String)
        ensures
            message@ == spec_pipeline_error_message(self@),
    {
        match self {
            PipelineError::NextMessage { cause } => with_context(
                "Failed to get next message",
                cause.as_str(),
            ),
            PipelineError::ForwardMessage(inner) => {
                let cause = inner.message();
                with_context("Failed to forward message", cause.as_str())
            },
            PipelineError::Unexpected => unexpected_message(),
        }
    }
}

/// Where the run stands.
#[derive(Clone, Debug, PartialEq, Eq)]
pub enum PipelineState {
    /// Asked for the next message of the source.
    Fetching,
    /// Busy with `message`, whose handling stands at `state`.
    Forwarding { message: SourceMessage, state: ForwardState },
    /// Asked for the pause that follows each message.
    Pausing,
    Finished,
    Failed,
}

/// What the caller reports back.
#[derive(Clone, Debug, PartialEq, Eq)]
pub enum PipelineEvent {
    /// The next message of the source.
    Message(SourceMessage),
    /// The source has no further message.
    EndOfMessages,
    /// A report for the message that is being handled.
    Forward(ForwardEvent),
    /// The pause is over.
    Paused,
    /// Fetching the next message failed.
    Failed { cause: String },
}

/// The step to perform next.
#[derive(Clone, Debug, PartialEq, Eq)]
pub enum PipelineAction {
    NextMessage,
    Forward(ForwardAction),
    /// Wait for `seconds`; the message before ended as `after` says.
    Pause { seconds: u64, after: ForwardOutcome },
    /// Every message is dealt with: nothing is left to do.
    Finish,
    /// The run has failed: nothing is left to do.
    Fail(PipelineError),
    /// The event came after the end and changed nothing.
    Stop,
}

pub ghost enum PipelineActionView {
    NextMessage,
    Forward(ForwardActionView),
    Pause { seconds: u64, after: ForwardOutcome },
    Finish,
    Fail(PipelineErrorView),
    Stop,
}

impl View for PipelineAction {
    type V = PipelineActionView;

    open spec fn view(&self) -> PipelineActionView {
        match *self {
            PipelineAction::NextMessage => PipelineActionView::NextMessage,
            PipelineAction::Forward(action) => PipelineActionView::Forward(action@),
            PipelineAction::Pause { seconds, after } => PipelineActionView::Pause {
                seconds,
                after,
            },
            PipelineAction::Finish => PipelineActionView::Finish,
            PipelineAction::Fail(error) => PipelineActionView::Fail(error@),
            PipelineAction::Stop => PipelineActionView::Stop,
        }
    }
}

pub open spec fn spec_pipeline_fail(error: PipelineErrorView) -> (
    PipelineState,
    PipelineActionView,
) {
    (PipelineState::Failed, PipelineActionView::Fail(error))
}

pub open spec fn spec_begin_forward_all() -> (PipelineState, PipelineActionView) {
    (PipelineState::Fetching, PipelineActionView::NextMessage)
}

/// What follows a step in the handling of `message`: its end leads to the
/// pause, its failure ends the run, and any other step is handed on.
pub open spec fn spec_after_forward(
    settings: Settings,
    message: SourceMessage,
    step: (ForwardState, ForwardActionView),
) -> (PipelineState, PipelineActionView) {
    match step.1 {
        ForwardActionView::Finish(outcome) => (
            PipelineState::Pausing,
            PipelineActionView::Pause { seconds: settings.sleep_duration, after: outcome },
        ),
        ForwardActionView::Fail(error) => spec_pipeline_fail(
            PipelineErrorView::ForwardMessage(error),
        ),
        ForwardActionView::Stop => spec_pipeline_fail(PipelineErrorView::Unexpected),
        action => (
            PipelineState::Forwarding { message, state: step.0 },
            PipelineActionView::Forward(action),
        ),
    }
}

/// The state after `event` and the step to perform next.
pub open spec fn spec_forward_all(
    state: PipelineState,
    settings: Settings,
    event: PipelineEvent,
) -> (PipelineState, PipelineActionView) {
    match state {
        PipelineState::Fetching => match event {
            PipelineEvent::Message(message) => (
                PipelineState::Forwarding { message, state: spec_begin_forward(message).0 },
                PipelineActionView::Forward(spec_begin_forward(message).1),
            ),
            PipelineEvent::EndOfMessages => (PipelineState::Finished, PipelineActionView::Finish),
            PipelineEvent::Failed { cause } => spec_pipeline_fail(
                PipelineErrorView::NextMessage { cause: cause@ },
            ),
            _ => spec_pipeline_fail(PipelineErrorView::Unexpected),
        },
        PipelineState::Forwarding { message, state: handling } => match event {
            PipelineEvent::Forward(report) => spec_after_forward(
                settings,
                message,
                spec_forward_message(handling, settings, message, report),
            ),
            _ => spec_pipeline_fail(PipelineErrorView::Unexpected),
        },
        PipelineState::Pausing => match event {
            PipelineEvent::Paused => (PipelineState::Fetching, PipelineActionView::NextMessage),
            _ => spec_pipeline_fail(PipelineErrorView::Unexpected),
        },
        PipelineState::Finished => (PipelineState::Finished, PipelineActionView::Stop),
        PipelineState::Failed => (PipelineState::Failed, PipelineActionView::Stop),
    }
}

fn fail(error: PipelineError) -> (next: (PipelineState, PipelineAction))
    ensures
        next.0 == PipelineState::Failed,
        next.1@ == spec_pipeline_fail(error@).1,
{
    (PipelineState::Failed, PipelineAction::Fail(error))
}

/// The first step of the run: fetch the first message of the source.
pub fn begin_forward_all() -> (next: (PipelineState, PipelineAction))
    ensures
        next.0 == spec_begin_forward_all().0,
        next.1@ == spec_begin_forward_all().1,
{
    (PipelineState::Fetching, PipelineAction::NextMessage)
}

/// Takes the run one step further: from the state and what the caller
/// reports to the next state and the step to perform. Each message is handled
/// to its end before the next is fetched, the configured pause follows every
/// message however it ended, and the first failure ends the run.
pub fn forward_all(state: PipelineState, config: &Config, event: PipelineEvent) -> (next: (
    PipelineState,
    PipelineAction,
))
    ensures
        next.0 == spec_forward_all(state, config@, event).0,
        next.1@ == spec_forward_all(state, config@, event).1,
{
    match state {
        PipelineState::Fetching => match event {
            PipelineEvent::Message(message) => {
                let first = begin_forward(&message);
                (
                    PipelineState::Forwarding { message, state: first.0 },
                    PipelineAction::Forward(first.1),
                )
            },
            PipelineEvent::EndOfMessages => (PipelineState::Finished, PipelineAction::Finish),
            PipelineEvent::Failed { cause } => fail(PipelineError::NextMessage { cause }),
            _ => fail(PipelineError::Unexpected),
        },
        PipelineState::Forwarding { message, state: handling } => match event {
            PipelineEvent::Forward(report) => {
                let step = forward_message(handling, config, &message, report);
                match step.1 {
                    ForwardAction::Finish(outcome) => (
                        PipelineState::Pausing,
                        PipelineAction::Pause { seconds: config.sleep_duration(), after: outcome },
                    ),
                    ForwardAction::Fail(error) => fail(PipelineError::ForwardMessage(error)),
                    ForwardAction::Stop => fail(PipelineError::Unexpected),
                    action => (
                        PipelineState::Forwarding { message, state: step.0 },
                        PipelineAction::Forward(action),
                    ),
                }
            },
            _ => fail(PipelineError::Unexpected),
        },
        PipelineState::Pausing => match event {
            PipelineEvent::Paused => (PipelineState::Fetching, PipelineAction::NextMessage),
            _ => fail(PipelineError::Unexpected),
        },
        PipelineState::Finished => (PipelineState::Finished, PipelineAction::Stop),
        PipelineState::Failed => (PipelineState::Failed, PipelineAction::Stop),
    }
}

/// The state after all of `events`, reported one by one from `state` on, and
/// the steps that were named on the way.
pub open spec fn spec_pipeline_run(
    state: PipelineState,
    settings: Settings,
    events: Seq<PipelineEvent>,
) -> (PipelineState, Seq<PipelineActionView>)
    decreases events.len(),
{
    if events.len() == 0 {
        (state, Seq::empty())
    } else {
        let first = spec_forward_all(state, settings, events[0]);
        let rest = spec_pipeline_run(first.0, settings, events.drop_first());
        (rest.0, seq![first.1] + rest.1)
    }
}

/// The step sends a copy to the destination.
pub open spec fn spec_is_send(action: PipelineActionView) -> bool {
    action matches PipelineActionView::Forward(step) && step is Send
}

/// The step is a pause of the configured length.
pub open spec fn spec_is_pause(action: PipelineActionView, settings: Settings) -> bool {
    action matches PipelineActionView::Pause { seconds, .. } && seconds == settings.sleep_duration
}

/// `event` delivers a message, and `action` sends the copy of that message.
pub open spec fn spec_sends_copy_of(
    action: PipelineActionView,
    settings: Settings,
    event: PipelineEvent,
) -> bool {
    &&& event matches PipelineEvent::Message(message)
    &&& action matches PipelineActionView::Forward(ForwardActionView::Send { text, .. })
    &&& text == spec_outgoing_text(settings.export_hashtags, message)
}

/// How far `state` is from a send: 0 where the message at hand can still be
/// sent, 1 where a message has to be fetched first, 2 where the pause has to
/// end before that, 3 where a pause has to be asked for before all of it.
spec fn spec_distance(state: PipelineState) -> int {
    match state {
        PipelineState::Forwarding { state: handling, .. } => if handling is Detecting || handling
            is TransferringMedia {
            0
        } else {
            3
        },
        PipelineState::Fetching => 1,
        PipelineState::Pausing => 2,
        _ => 3,
    }
}

/// From `start` on and before `end`, a pause of the configured length is
/// asked for and, after it, a message is delivered.
spec fn spec_delivery_before(
    actions: Seq<PipelineActionView>,
    settings: Settings,
    events: Seq<PipelineEvent>,
    start: int,
    end: int,
) -> bool {
    exists|pause: int, delivery: int|
        start <= pause < delivery < end && spec_is_pause(#[trigger] actions[pause], settings) && (
        #[trigger] events[delivery]) is Message
}

/// A run names one step for each event.
pub proof fn lemma_pipeline_run_len(
    state: PipelineState,
    settings: Settings,
    events: Seq<PipelineEvent>,
)
    ensures
        spec_pipeline_run(state, settings, events).1.len() == events.len(),
    decreases events.len(),
{
    if events.len() > 0 {
        let first = spec_forward_all(state, settings, events[0]);
        lemma_pipeline_run_len(first.0, settings, events.drop_first());
    }
}

/// What one step does to the distance from a send.
proof fn lemma_step_distance(state: PipelineState, settings: Settings, event: PipelineEvent)
    ensures
        ({
            let next = spec_forward_all(state, settings, event);
            &&& spec_is_send(next.1) ==> spec_distance(state) == 0 && spec_distance(next.0) == 3
            &&& spec_distance(state) == 3 ==> spec_distance(next.0) == 3 || (spec_is_pause(
                next.1,
                settings,
            ) && spec_distance(next.0) == 2)
            &&& spec_distance(state) == 2 ==> spec_distance(next.0) == 3 || spec_distance(next.0)
                == 1
            &&& spec_distance(state) == 1 ==> spec_distance(next.0) == 3 || (event is Message
                && spec_distance(next.0) == 0)
        }),
{
}

/// Whose copy a step sends, and how the message at hand comes to be it.
proof fn lemma_step_message(state: PipelineState, settings: Settings, event: PipelineEvent)
    ensures
        ({
            let next = spec_forward_all(state, settings, event);
            &&& spec_is_send(next.1) ==> state is Forwarding && spec_sends_copy_of(
                next.1,
                settings,
                PipelineEvent::Message(state->message),
            )
            &&& next.0 is Forwarding ==> (state is Forwarding && state->message
                == next.0->message && !(event is Message)) || (state is Fetching && event
                == PipelineEvent::Message(next.0->message))
        }),
{
}

/// Before a send, as far as the state at the start is from one: a message
/// is delivered, and a pause is asked for before that.
proof fn lemma_send_needs_delivery(
    state: PipelineState,
    settings: Settings,
    events: Seq<PipelineEvent>,
    send: int,
)
    requires
        0 <= send < events.len(),
        spec_is_send(spec_pipeline_run(state, settings, events).1[send]),
    ensures
        spec_distance(state) == 3 ==> spec_delivery_before(
            spec_pipeline_run(state, settings, events).1,
            settings,
            events,
            0,
            send,
        ),
        spec_distance(state) == 2 || spec_distance(state) == 1 ==> exists|delivery: int|
            0 <= delivery < send && (#[trigger] events[delivery]) is Message,
    decreases events.len(),
{
    let actions = spec_pipeline_run(state, settings, events).1;
    let first = spec_forward_all(state, settings, events[0]);
    let later = events.drop_first();
    let rest = spec_pipeline_run(first.0, settings, later).1;
    lemma_pipeline_run_len(state, settings, events);
    lemma_pipeline_run_len(first.0, settings, later);
    lemma_step_distance(state, settings, events[0]);
    if send > 0 {
        assert(actions[send] == rest[send - 1]);
        lemma_send_needs_delivery(first.0, settings, later, send - 1);
        if spec_distance(first.0) == 3 {
            let (pause, delivery) = choose|pause: int, delivery: int|
                0 <= pause < delivery < send - 1 && spec_is_pause(#[trigger] rest[pause], settings)
                    && (#[trigger] later[delivery]) is Message;
            assert(actions[pause + 1] == rest[pause]);
            assert(events[delivery + 1] == later[delivery]);
            assert(spec_is_pause(actions[pause + 1], settings) && events[delivery + 1]
                is Message);
        } else if spec_distance(first.0) == 2 || spec_distance(first.0) == 1 {
            let delivery = choose|delivery: int|
                0 <= delivery < send - 1 && (#[trigger] later[delivery]) is Message;
            assert(events[delivery + 1] == later[delivery]);
            assert(events[delivery + 1] is Message);
            if spec_distance(state) == 3 {
                assert(spec_is_pause(actions[0], settings));
            }
        } else if spec_distance(state) != 0 {
            assert(spec_distance(state) == 1 && events[0] is Message);
        }
    }
}

/// Between two sends of a run, a pause of the configured length is asked for
/// and, after it, a message is delivered.
proof fn lemma_pause_between_sends(
    state: PipelineState,
    settings: Settings,
    events: Seq<PipelineEvent>,
    first: int,
    second: int,
)
    requires
        0 <= first < second < events.len(),
        spec_is_send(spec_pipeline_run(state, settings, events).1[first]),
        spec_is_send(spec_pipeline_run(state, settings, events).1[second]),
    ensures
        spec_delivery_before(
            spec_pipeline_run(state, settings, events).1,
            settings,
            events,
            first + 1,
            second,
        ),
    decreases events.len(),
{
    let actions = spec_pipeline_run(state, settings, events).1;
    let step = spec_forward_all(state, settings, events[0]);
    let later = events.drop_first();
    let rest = spec_pipeline_run(step.0, settings, later).1;
    lemma_pipeline_run_len(state, settings, events);
    lemma_pipeline_run_len(step.0, settings, later);
    assert(actions[second] == rest[second - 1]);
    if first == 0 {
        lemma_step_distance(state, settings, events[0]);
        lemma_send_needs_delivery(step.0, settings, later, second - 1);
        let (pause, delivery) = choose|pause: int, delivery: int|
            0 <= pause < delivery < second - 1 && spec_is_pause(#[trigger] rest[pause], settings)
                && (#[trigger] later[delivery]) is Message;
        assert(actions[pause + 1] == rest[pause]);
        assert(events[delivery + 1] == later[delivery]);
        assert(spec_is_pause(actions[pause + 1], settings) && events[delivery + 1] is Message);
    } else {
        assert(actions[first] == rest[first - 1]);
        lemma_pause_between_sends(step.0, settings, later, first - 1, second - 1);
        let (pause, delivery) = choose|pause: int, delivery: int|
            first <= pause < delivery < second - 1 && spec_is_pause(
                #[trigger] rest[pause],
                settings,
            ) && (#[trigger] later[delivery]) is Message;
        assert(actions[pause + 1] == rest[pause]);
        assert(events[delivery + 1] == later[delivery]);
        assert(spec_is_pause(actions[pause + 1], settings) && events[delivery + 1] is Message);
    }
}

/// Each send is the copy of the message at hand: the one that was delivered
/// last, or the one that the run started with.
proof fn lemma_send_copies_last_delivery(
    state: PipelineState,
    settings: Settings,
    events: Seq<PipelineEvent>,
    send: int,
)
    requires
        0 <= send < events.len(),
        spec_is_send(spec_pipeline_run(state, settings, events).1[send]),
    ensures
        ({
            let action = spec_pipeline_run(state, settings, events).1[send];
            ||| exists|delivery: int|
                0 <= delivery < send && spec_sends_copy_of(
                    action,
                    settings,
                    #[trigger] events[delivery],
                ) && forall|i: int| delivery < i < send ==> !((#[trigger] events[i]) is Message)
            ||| state is Forwarding && spec_sends_copy_of(
                action,
                settings,
                PipelineEvent::Message(state->message),
            ) && forall|i: int| 0 <= i < send ==> !((#[trigger] events[i]) is Message)
        }),
    decreases events.len(),
{
    let actions = spec_pipeline_run(state, settings, events).1;
    let step = spec_forward_all(state, settings, events[0]);
    let later = events.drop_first();
    let rest = spec_pipeline_run(step.0, settings, later).1;
    lemma_pipeline_run_len(state, settings, events);
    lemma_pipeline_run_len(step.0, settings, later);
    lemma_step_message(state, settings, events[0]);
    if send > 0 {
        let action = actions[send];
        assert(action == rest[send - 1]);
        lemma_send_copies_last_delivery(step.0, settings, later, send - 1);
        if exists|delivery: int|
            0 <= delivery < send - 1 && spec_sends_copy_of(
                action,
                settings,
                #[trigger] later[delivery],
            ) && forall|i: int| delivery < i < send - 1 ==> !((#[trigger] later[i]) is Message) {
            let delivery = choose|delivery: int|
                0 <= delivery < send - 1 && spec_sends_copy_of(
                    action,
                    settings,
                    #[trigger] later[delivery],
                ) && forall|i: int|
                    delivery < i < send - 1 ==> !((#[trigger] later[i]) is Message);
            assert(events[delivery + 1] == later[delivery]);
            assert forall|i: int| delivery + 1 < i < send implies !((#[trigger] events[i])
                is Message) by {
                assert(events[i] == later[i - 1]);
            }
            assert(spec_sends_copy_of(action, settings, events[delivery + 1]));
        } else {
            assert(step.0 is Forwarding);
            assert forall|i: int| 0 < i < send implies !((#[trigger] events[i]) is Message) by {
                assert(events[i] == later[i - 1]);
            }
            if state is Fetching {
                assert(spec_sends_copy_of(action, settings, events[0]));
            }
        }
    }
}

/// Copies leave in the order in which their messages arrived, and a pause of
/// the configured length lies between any two of them: of two sends of a
/// run, each is the copy of a message that was delivered before it, the
/// message of the later send was delivered after the earlier send, and a
/// pause was asked for in between.
pub proof fn lemma_sends_keep_source_order(
    settings: Settings,
    events: Seq<PipelineEvent>,
    first: int,
    second: int,
)
    requires
        0 <= first < second < events.len(),
        spec_is_send(
            spec_pipeline_run(spec_begin_forward_all().0, settings, events).1[first],
        ),
        spec_is_send(
            spec_pipeline_run(spec_begin_forward_all().0, settings, events).1[second],
        ),
    ensures
        ({
            let actions = spec_pipeline_run(spec_begin_forward_all().0, settings, events).1;
            exists|earlier: int, pause: int, later: int|
                0 <= earlier < first < pause < later < second && spec_sends_copy_of(
                    actions[first],
                    settings,
                    #[trigger] events[earlier],
                ) && spec_is_pause(#[trigger] actions[pause], settings) && spec_sends_copy_of(
                    actions[second],
                    settings,
                    #[trigger] events[later],
                )
        }),
{
    let start = spec_begin_forward_all().0;
    let actions = spec_pipeline_run(start, settings, events).1;
    lemma_send_copies_last_delivery(start, settings, events, first);
    lemma_send_copies_last_delivery(start, settings, events, second);
    lemma_pause_between_sends(start, settings, events, first, second);
    let earlier = choose|delivery: int|
        0 <= delivery < first && spec_sends_copy_of(
            actions[first],
            settings,
            #[trigger] events[delivery],
        ) && forall|i: int| delivery < i < first ==> !((#[trigger] events[i]) is Message);
    let later = choose|delivery: int|
        0 <= delivery < second && spec_sends_copy_of(
            actions[second],
            settings,
            #[trigger] events[delivery],
        ) && forall|i: int| delivery < i < second ==> !((#[trigger] events[i]) is Message);
    let (pause, between) = choose|pause: int, delivery: int|
        first + 1 <= pause < delivery < second && spec_is_pause(
            #[trigger] actions[pause],
            settings,
        ) && (#[trigger] events[delivery]) is Message;
    assert(between <= later);
    assert(spec_sends_copy_of(actions[first], settings, events[earlier]) && spec_is_pause(
        actions[pause],
        settings,
    ) && spec_sends_copy_of(actions[second], settings, events[later]));
}

/// Every message ends in a pause of the configured length, however it
/// ended: sent, skipped or found to be forwarded already. The next message is
/// asked for when the pause is reported to be over, and not before.
pub proof fn lemma_pause_after_every_message(
    settings: Settings,
    message: SourceMessage,
    handling: ForwardState,
    report: ForwardEvent,
    event: PipelineEvent,
)
    ensures
        spec_forward_message(handling, settings, message, report).1 matches ForwardActionView::Finish(
            outcome,
        ) ==> spec_forward_all(
            PipelineState::Forwarding { message, state: handling },
            settings,
            PipelineEvent::Forward(report),
        ) == (
            PipelineState::Pausing,
            PipelineActionView::Pause { seconds: settings.sleep_duration, after: outcome },
        ),
        spec_forward_all(PipelineState::Pausing, settings, event).1 is NextMessage <==> event
            is Paused,
        !(spec_forward_all(
            PipelineState::Forwarding { message, state: handling },
            settings,
            event,
        ).1 is NextMessage),
{
}

} // verus!
