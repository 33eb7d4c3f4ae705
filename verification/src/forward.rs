//! Sending one message on: look for its copy, fetch its attachment, send.
//!
//! The caller searches, transfers and sends as [`forward_message`] says and
//! reports what came of it.

use vstd::prelude::*;
use vstd::string::*;
use crate::config::{Config, Settings};
use crate::media::{Media, MediaKind};
use crate::message::{dedup_marker, outgoing_text, spec_outgoing_text, SourceMessage};
use crate::text::{
    spec_contains, spec_unexpected_message, spec_with_context, str_contains, unexpected_message,
    with_context,
};
use crate::transfer::{
    begin_reupload, reupload_media, spec_begin_reupload, spec_reupload_media, TransferAction,
    spec_transfer_error_message, TransferActionView, TransferError, TransferErrorView,
    TransferEvent, TransferState,
};

verus! {

/// What a search of the destination reports.
#[derive(Clone, Debug, PartialEq, Eq)]
pub enum SearchEvent {
    /// The text of the next message that the search found.
    Result { text: String },
    /// The search has no further message.
    Exhausted,
    Failed { cause: String },
}

/// What is known of a message's copy after one more report of the search.
#[derive(Clone, Debug, PartialEq, Eq)]
pub enum Detection {
    /// No copy among the results so far, and more may follow.
    Undecided,
    /// A result holds the message's tag: the copy exists.
    Forwarded,
    /// The search ended without a copy.
    NotForwarded,
    Failed { cause: String },
}

/// What `event` settles about the copy of `message`.
pub open spec fn spec_check_if_forwarded(message: SourceMessage, event: SearchEvent) -> Detection {
    match event {
        SearchEvent::Result { text } => if spec_contains(text@, message.spec_marker()) {
            Detection::Forwarded
        } else {
            Detection::Undecided
        },
        SearchEvent::Exhausted => Detection::NotForwarded,
        SearchEvent::Failed { cause } => Detection::Failed { cause },
    }
}

/// Judges one report of the search for the copy of `message`: a result whose
/// text holds the marked tag is the copy, and the end of the results means
/// that there is none.
pub fn check_if_forwarded(message: &SourceMessage, event: SearchEvent) -> (detection: Detection)
    ensures
        detection == spec_check_if_forwarded(*message, event),
{
    match event {
        SearchEvent::Result { text } => {
            let marker = dedup_marker(message);
            if str_contains(text.as_str(), marker.as_str()) {
                Detection::Forwarded
            } else {
                Detection::Undecided
            }
        },
        SearchEvent::Exhausted => Detection::NotForwarded,
        SearchEvent::Failed { cause } => Detection::Failed { cause },
    }
}

/// How the handling of one message ended.
#[derive(Clone, Copy, PartialEq, Eq, Structural, Debug)]
pub enum ForwardOutcome {
    /// The destination already held the copy; nothing was sent.
    AlreadyForwarded,
    /// The copy was sent.
    Forwarded,
    /// The attachment is of a kind that is not mirrored; nothing was sent.
    Skipped,
}

/// Why a message could not be sent on.
#[derive(Clone, Debug, PartialEq, Eq)]
pub enum ForwardError {
    Search { cause: String },
    Reupload(TransferError),
    Send { cause: String },
    /// The caller reported something that the state was not waiting for.
    Unexpected,
}

pub ghost enum ForwardErrorView {
    Search { cause: Seq<char> },
    Reupload(TransferErrorView),
    Send { cause: Seq<char> },
    Unexpected,
}

impl View for ForwardError {
    type V = ForwardErrorView;

    open spec fn view(&self) -> ForwardErrorView {
        match *self {
            ForwardError::Search { cause } => ForwardErrorView::Search { cause: cause@ },
            ForwardError::Reupload(error) => ForwardErrorView::Reupload(error@),
            ForwardError::Send { cause } => ForwardErrorView::Send { cause: cause@ },
            ForwardError::Unexpected => ForwardErrorView::Unexpected,
        }
    }
}

/// The failure in words: what was attempted, from the outermost attempt
/// inwards, and what went wrong.
pub open spec fn spec_forward_error_message(error: ForwardErrorView) -> Seq<char> {
    match error {
        ForwardErrorView::Search { cause } => spec_with_context(
            "Failed to search for message"@,
            cause,
        ),
        ForwardErrorView::Reupload(inner) => spec_with_context(
            "Failed to reupload media"@,
            spec_transfer_error_message(inner),
        ),
        ForwardErrorView::Send { cause } => spec_with_context(
            "Failed to send forwarded message"@,
            cause,
        ),
        ForwardErrorView::Unexpected => spec_unexpected_message(),
    }
}

impl ForwardError {
    /// The failure in words.
    pub fn message(&self) -> (message: String)
        ensures
            message@ == spec_forward_error_message(self@),
    {
        match self {
            ForwardError::Search { cause } => with_context(
                "Failed to search for message",
                cause.as_str(),
            ),
            ForwardError::Reupload(inner) => {
                let cause = inner.message();
                with_context("Failed to reupload media", cause.as_str())
            },
            ForwardError::Send { cause } => with_context(
                "Failed to send forwarded message",
                cause.as_str(),
            ),
            ForwardError::Unexpected => unexpected_message(),
        }
    }
}

/// Where the handling of one message stands. The text of the copy is put
/// together within the step that leaves `Detecting`, and again where the
/// copy is sent.
#[derive(Clone, Copy, PartialEq, Eq, Structural, Debug)]
pub enum ForwardState {
    /// Searching the destination for the copy.
    Detecting,
    TransferringMedia(TransferState),
    Sending,
    Done,
    Skipped,
    Failed,
}

/// What the caller reports back.
#[derive(Clone, Debug, PartialEq, Eq)]
pub enum ForwardEvent {
    Search(SearchEvent),
    Transfer(TransferEvent),
    /// The destination took the copy.
    Sent,
    /// Sending failed.
    Failed { cause: String },
}

/// The step to perform next.
#[derive(Clone, Debug, PartialEq, Eq)]
pub enum ForwardAction {
    /// Search the destination for `query` and report the first result.
    Search { query: String },
    /// Report the next result of the search.
    NextSearchResult,
    Transfer(TransferAction),
    /// Send `text`, with the upload attached where `with_media` says so.
    Send { text: String, with_media: bool },
    /// The message is dealt with: nothing is left to do.
    Finish(ForwardOutcome),
    /// The message could not be sent on: nothing is left to do.
    Fail(ForwardError),
    /// The event came after the end and changed nothing.
    Stop,
}

pub ghost enum ForwardActionView {
    Search { query: Seq<char> },
    NextSearchResult,
    Transfer(TransferActionView),
    Send { text: Seq<char>, with_media: bool },
    Finish(ForwardOutcome),
    Fail(ForwardErrorView),
    Stop,
}

impl View for ForwardAction {
    type V = ForwardActionView;

    open spec fn view(&self) -> ForwardActionView {
        match *self {
            ForwardAction::Search { query } => ForwardActionView::Search { query: query@ },
            ForwardAction::NextSearchResult => ForwardActionView::NextSearchResult,
            ForwardAction::Transfer(action) => ForwardActionView::Transfer(action@),
            ForwardAction::Send { text, with_media } => ForwardActionView::Send {
                text: text@,
                with_media,
            },
            ForwardAction::Finish(outcome) => ForwardActionView::Finish(outcome),
            ForwardAction::Fail(error) => ForwardActionView::Fail(error@),
            ForwardAction::Stop => ForwardActionView::Stop,
        }
    }
}

pub open spec fn spec_forward_fail(error: ForwardErrorView) -> (ForwardState, ForwardActionView) {
    (ForwardState::Failed, ForwardActionView::Fail(error))
}

pub open spec fn spec_send(settings: Settings, message: SourceMessage, with_media: bool) -> (
    ForwardState,
    ForwardActionView,
) {
    (
        ForwardState::Sending,
        ForwardActionView::Send {
            text: spec_outgoing_text(settings.export_hashtags, message),
            with_media,
        },
    )
}

pub open spec fn spec_begin_forward(message: SourceMessage) -> (ForwardState, ForwardActionView) {
    (ForwardState::Detecting, ForwardActionView::Search { query: message.spec_marker() })
}

/// What follows once the destination is known to hold no copy: a message
/// without attachment is sent, one with an attachment of a mirrored kind has
/// it transferred first, and any other is skipped.
pub open spec fn spec_after_detection(settings: Settings, message: SourceMessage) -> (
    ForwardState,
    ForwardActionView,
) {
    match message.media {
        None => spec_send(settings, message, false),
        Some(media) => if media.spec_kind() == MediaKind::Other {
            (ForwardState::Skipped, ForwardActionView::Finish(ForwardOutcome::Skipped))
        } else {
            (
                ForwardState::TransferringMedia(spec_begin_reupload(settings).0),
                ForwardActionView::Transfer(spec_begin_reupload(settings).1),
            )
        },
    }
}

/// What follows a step of the transfer: its end leads to the sending, its
/// failure ends the message, and any other step is handed on.
pub open spec fn spec_after_transfer(
    settings: Settings,
    message: SourceMessage,
    step: (TransferState, TransferActionView),
) -> (ForwardState, ForwardActionView) {
    match step.1 {
        TransferActionView::Done => spec_send(settings, message, true),
        TransferActionView::Fail(error) => spec_forward_fail(ForwardErrorView::Reupload(error)),
        TransferActionView::Stop => spec_forward_fail(ForwardErrorView::Unexpected),
        action => (ForwardState::TransferringMedia(step.0), ForwardActionView::Transfer(action)),
    }
}

/// The state after `event` and the step to perform next.
pub open spec fn spec_forward_message(
    state: ForwardState,
    settings: Settings,
    message: SourceMessage,
    event: ForwardEvent,
) -> (ForwardState, ForwardActionView) {
    match state {
        ForwardState::Detecting => match event {
            ForwardEvent::Search(report) => match spec_check_if_forwarded(message, report) {
                Detection::Forwarded => (
                    ForwardState::Done,
                    ForwardActionView::Finish(ForwardOutcome::AlreadyForwarded),
                ),
                Detection::Undecided => (
                    ForwardState::Detecting,
                    ForwardActionView::NextSearchResult,
                ),
                Detection::NotForwarded => spec_after_detection(settings, message),
                Detection::Failed { cause } => spec_forward_fail(
                    ForwardErrorView::Search { cause: cause@ },
                ),
            },
            _ => spec_forward_fail(ForwardErrorView::Unexpected),
        },
        ForwardState::TransferringMedia(transfer) => match (message.media, event) {
            (Some(media), ForwardEvent::Transfer(report)) => spec_after_transfer(
                settings,
                message,
                spec_reupload_media(transfer, settings, message, media, report),
            ),
            _ => spec_forward_fail(ForwardErrorView::Unexpected),
        },
        ForwardState::Sending => match event {
            ForwardEvent::Sent => (
                ForwardState::Done,
                ForwardActionView::Finish(ForwardOutcome::Forwarded),
            ),
            ForwardEvent::Failed { cause } => spec_forward_fail(
                ForwardErrorView::Send { cause: cause@ },
            ),
            _ => spec_forward_fail(ForwardErrorView::Unexpected),
        },
        ForwardState::Done => (ForwardState::Done, ForwardActionView::Stop),
        ForwardState::Skipped => (ForwardState::Skipped, ForwardActionView::Stop),
        ForwardState::Failed => (ForwardState::Failed, ForwardActionView::Stop),
    }
}

fn fail(error: ForwardError) -> (next: (ForwardState, ForwardAction))
    ensures
        next.0 == ForwardState::Failed,
        next.1@ == spec_forward_fail(error@).1,
{
    (ForwardState::Failed, ForwardAction::Fail(error))
}

fn send(config: &Config, message: &SourceMessage, with_media: bool) -> (next: (
    ForwardState,
    ForwardAction,
))
    ensures
        next.0 == spec_send(config@, *message, with_media).0,
        next.1@ == spec_send(config@, *message, with_media).1,
{
    let text = outgoing_text(config.export_hashtags(), message);
    (ForwardState::Sending, ForwardAction::Send { text, with_media })
}

fn after_detection(config: &Config, message: &SourceMessage) -> (next: (
    ForwardState,
    ForwardAction,
))
    ensures
        next.0 == spec_after_detection(config@, *message).0,
        next.1@ == spec_after_detection(config@, *message).1,
{
    match &message.media {
        None => send(config, message, false),
        Some(media) => {
            if !media.is_supported() {
                (ForwardState::Skipped, ForwardAction::Finish(ForwardOutcome::Skipped))
            } else {
                let first = begin_reupload(config);
                (ForwardState::TransferringMedia(first.0), ForwardAction::Transfer(first.1))
            }
        },
    }
}

/// The first step for `message`: search the destination for its marked tag.
pub fn begin_forward(message: &SourceMessage) -> (next: (ForwardState, ForwardAction))
    ensures
        next.0 == spec_begin_forward(*message).0,
        next.1@ == spec_begin_forward(*message).1,
{
    (ForwardState::Detecting, ForwardAction::Search { query: dedup_marker(message) })
}

/// Takes the handling of `message` one step further: from the state and what
/// the caller reports to the next state and the step to perform. A message
/// whose copy is found is done with at once. One with an attachment of a kind
/// that is not mirrored is skipped whole. Any other is sent, after its
/// attachment where it has one.
pub fn forward_message(
    state: ForwardState,
    config: &Config,
    message: &SourceMessage,
    event: ForwardEvent,
) -> (next: (ForwardState, ForwardAction))
    ensures
        next.0 == spec_forward_message(state, config@, *message, event).0,
        next.1@ == spec_forward_message(state, config@, *message, event).1,
{
    match state {
        ForwardState::Detecting => match event {
            ForwardEvent::Search(report) => match check_if_forwarded(message, report) {
                Detection::Forwarded => (
                    ForwardState::Done,
                    ForwardAction::Finish(ForwardOutcome::AlreadyForwarded),
                ),
                Detection::Undecided => (ForwardState::Detecting, ForwardAction::NextSearchResult),
                Detection::NotForwarded => after_detection(config, message),
                Detection::Failed { cause } => fail(ForwardError::Search { cause }),
            },
            _ => fail(ForwardError::Unexpected),
        },
        ForwardState::TransferringMedia(transfer) => match (&message.media, event) {
            (Some(media), ForwardEvent::Transfer(report)) => {
                let step = reupload_media(transfer, config, message, media, report);
                match step.1 {
                    TransferAction::Done => send(config, message, true),
                    TransferAction::Fail(error) => fail(ForwardError::Reupload(error)),
                    TransferAction::Stop => fail(ForwardError::Unexpected),
                    action => (
                        ForwardState::TransferringMedia(step.0),
                        ForwardAction::Transfer(action),
                    ),
                }
            },
            _ => fail(ForwardError::Unexpected),
        },
        ForwardState::Sending => match event {
            ForwardEvent::Sent => (
                ForwardState::Done,
                ForwardAction::Finish(ForwardOutcome::Forwarded),
            ),
            ForwardEvent::Failed { cause } => fail(ForwardError::Send { cause }),
            _ => fail(ForwardError::Unexpected),
        },
        ForwardState::Done => (ForwardState::Done, ForwardAction::Stop),
        ForwardState::Skipped => (ForwardState::Skipped, ForwardAction::Stop),
        ForwardState::Failed => (ForwardState::Failed, ForwardAction::Stop),
    }
}

/// The state after all of `events`, reported one by one from `state` on, and
/// the steps that were named on the way.
pub open spec fn spec_forward_run(
    state: ForwardState,
    settings: Settings,
    message: SourceMessage,
    events: Seq<ForwardEvent>,
) -> (ForwardState, Seq<ForwardActionView>)
    decreases events.len(),
{
    if events.len() == 0 {
        (state, Seq::empty())
    } else {
        let first = spec_forward_message(state, settings, message, events[0]);
        let rest = spec_forward_run(first.0, settings, message, events.drop_first());
        (rest.0, seq![first.1] + rest.1)
    }
}

/// A step that sends, or that belongs to the transfer of the attachment.
pub open spec fn spec_sends_or_transfers(action: ForwardActionView) -> bool {
    action is Send || action is Transfer
}

/// A search result that is not the copy of `message`.
pub open spec fn spec_is_miss(message: SourceMessage, event: ForwardEvent) -> bool {
    event matches ForwardEvent::Search(SearchEvent::Result { text }) && !spec_contains(
        text@,
        message.spec_marker(),
    )
}

/// A search result that is the copy of `message`.
pub open spec fn spec_is_hit(message: SourceMessage, event: ForwardEvent) -> bool {
    event matches ForwardEvent::Search(SearchEvent::Result { text }) && spec_contains(
        text@,
        message.spec_marker(),
    )
}

/// How many of `actions` send.
pub open spec fn spec_sends(actions: Seq<ForwardActionView>) -> nat
    decreases actions.len(),
{
    if actions.len() == 0 {
        0
    } else {
        let rest = spec_sends(actions.drop_first());
        if actions[0] is Send {
            rest + 1
        } else {
            rest
        }
    }
}

/// A run names one step for each event.
pub proof fn lemma_forward_run_len(
    state: ForwardState,
    settings: Settings,
    message: SourceMessage,
    events: Seq<ForwardEvent>,
)
    ensures
        spec_forward_run(state, settings, message, events).1.len() == events.len(),
    decreases events.len(),
{
    if events.len() > 0 {
        let first = spec_forward_message(state, settings, message, events[0]);
        lemma_forward_run_len(first.0, settings, message, events.drop_first());
    }
}

/// Once a message is dealt with, skipped or failed, nothing that the caller
/// reports changes the state or asks for another step.
pub proof fn lemma_forward_ends(
    state: ForwardState,
    settings: Settings,
    message: SourceMessage,
    events: Seq<ForwardEvent>,
)
    requires
        state is Done || state is Skipped || state is Failed,
    ensures
        spec_forward_run(state, settings, message, events).0 == state,
        forall|i: int|
            0 <= i < events.len() ==> #[trigger] spec_forward_run(
                state,
                settings,
                message,
                events,
            ).1[i] == ForwardActionView::Stop,
    decreases events.len(),
{
    lemma_forward_run_len(state, settings, message, events);
    if events.len() > 0 {
        let rest = spec_forward_run(state, settings, message, events.drop_first());
        lemma_forward_ends(state, settings, message, events.drop_first());
        lemma_forward_run_len(state, settings, message, events.drop_first());
        assert forall|i: int| 0 <= i < events.len() implies #[trigger] spec_forward_run(
            state,
            settings,
            message,
            events,
        ).1[i] == ForwardActionView::Stop by {
            if i > 0 {
                assert(spec_forward_run(state, settings, message, events).1[i] == rest.1[i - 1]);
            }
        }
    }
}

/// Where the search of the destination comes upon a message that holds the
/// tag, after any number of results that do not, the message is done with:
/// nothing is sent and no transfer is begun, whatever the caller reports
/// afterwards.
pub proof fn lemma_duplicate_short_circuit(
    settings: Settings,
    message: SourceMessage,
    misses: Seq<ForwardEvent>,
    hit: ForwardEvent,
    later: Seq<ForwardEvent>,
)
    requires
        forall|i: int| 0 <= i < misses.len() ==> spec_is_miss(message, #[trigger] misses[i]),
        spec_is_hit(message, hit),
    ensures
        ({
            let events = misses + seq![hit] + later;
            let run = spec_forward_run(ForwardState::Detecting, settings, message, events);
            &&& run.0 == ForwardState::Done
            &&& run.1.len() == events.len()
            &&& run.1[misses.len() as int] == ForwardActionView::Finish(
                ForwardOutcome::AlreadyForwarded,
            )
            &&& forall|i: int|
                0 <= i < run.1.len() ==> !spec_sends_or_transfers(#[trigger] run.1[i])
        }),
    decreases misses.len(),
{
    let events = misses + seq![hit] + later;
    let run = spec_forward_run(ForwardState::Detecting, settings, message, events);
    lemma_forward_run_len(ForwardState::Detecting, settings, message, events);
    if misses.len() == 0 {
        assert(events[0] == hit);
        assert(events.drop_first() =~= later);
        let tail = spec_forward_run(ForwardState::Done, settings, message, later);
        lemma_forward_ends(ForwardState::Done, settings, message, later);
        lemma_forward_run_len(ForwardState::Done, settings, message, later);
        assert forall|i: int| 0 <= i < run.1.len() implies !spec_sends_or_transfers(
            #[trigger] run.1[i],
        ) by {
            if i > 0 {
                assert(run.1[i] == tail.1[i - 1]);
            }
        }
    } else {
        let fewer = misses.drop_first();
        assert(events[0] == misses[0]);
        assert(events.drop_first() =~= fewer + seq![hit] + later);
        assert forall|i: int| 0 <= i < fewer.len() implies spec_is_miss(
            message,
            #[trigger] fewer[i],
        ) by {
            assert(fewer[i] == misses[i + 1]);
        }
        lemma_duplicate_short_circuit(settings, message, fewer, hit, later);
        let tail = spec_forward_run(
            ForwardState::Detecting,
            settings,
            message,
            fewer + seq![hit] + later,
        );
        assert(run.1 == seq![ForwardActionView::NextSearchResult] + tail.1);
        assert(run.1[misses.len() as int] == tail.1[fewer.len() as int]);
        assert forall|i: int| 0 <= i < run.1.len() implies !spec_sends_or_transfers(
            #[trigger] run.1[i],
        ) by {
            if i > 0 {
                assert(run.1[i] == tail.1[i - 1]);
            }
        }
    }
}

/// Sends that can still follow from `state`.
pub open spec fn spec_sends_left(state: ForwardState) -> nat {
    match state {
        ForwardState::Detecting | ForwardState::TransferringMedia(_) => 1,
        _ => 0,
    }
}

/// Whatever the caller reports, one message is sent at most once.
pub proof fn lemma_at_most_one_send(
    state: ForwardState,
    settings: Settings,
    message: SourceMessage,
    events: Seq<ForwardEvent>,
)
    ensures
        spec_sends(spec_forward_run(state, settings, message, events).1) <= spec_sends_left(state),
    decreases events.len(),
{
    if events.len() > 0 {
        let first = spec_forward_message(state, settings, message, events[0]);
        let rest = spec_forward_run(first.0, settings, message, events.drop_first());
        lemma_at_most_one_send(first.0, settings, message, events.drop_first());
        assert((seq![first.1] + rest.1).drop_first() =~= rest.1);
    }
}

/// A message with an attachment of a kind that is not mirrored is skipped
/// once the search has found no copy: nothing is sent, not even its text.
pub proof fn lemma_unsupported_media_is_skipped(
    settings: Settings,
    message: SourceMessage,
    later: Seq<ForwardEvent>,
)
    requires
        message.media matches Some(media) && media.spec_kind() == MediaKind::Other,
    ensures
        ({
            let events = seq![ForwardEvent::Search(SearchEvent::Exhausted)] + later;
            let run = spec_forward_run(ForwardState::Detecting, settings, message, events);
            &&& run.0 == ForwardState::Skipped
            &&& run.1.len() == events.len()
            &&& run.1[0] == ForwardActionView::Finish(ForwardOutcome::Skipped)
            &&& forall|i: int|
                0 <= i < run.1.len() ==> !spec_sends_or_transfers(#[trigger] run.1[i])
        }),
{
    let events = seq![ForwardEvent::Search(SearchEvent::Exhausted)] + later;
    let run = spec_forward_run(ForwardState::Detecting, settings, message, events);
    assert(events.drop_first() =~= later);
    let tail = spec_forward_run(ForwardState::Skipped, settings, message, later);
    lemma_forward_ends(ForwardState::Skipped, settings, message, later);
    lemma_forward_run_len(ForwardState::Skipped, settings, message, later);
    assert forall|i: int| 0 <= i < run.1.len() implies !spec_sends_or_transfers(
        #[trigger] run.1[i],
    ) by {
        if i > 0 {
            assert(run.1[i] == tail.1[i - 1]);
        }
    }
}

/// The copy of a message is recognised as its copy: a search result with
/// the text under which the message was sent settles that the message is
/// forwarded, so that a later run does not send it again.
pub proof fn lemma_copy_is_recognised(settings: Settings, message: SourceMessage, copy: String)
    requires
        copy@ == spec_outgoing_text(settings.export_hashtags, message),
    ensures
        spec_check_if_forwarded(message, SearchEvent::Result { text: copy })
            == Detection::Forwarded,
        spec_forward_message(
            ForwardState::Detecting,
            settings,
            message,
            ForwardEvent::Search(SearchEvent::Result { text: copy }),
        ) == (ForwardState::Done, ForwardActionView::Finish(ForwardOutcome::AlreadyForwarded)),
{
    let marker = message.spec_marker();
    assert(copy@.subrange(0, 0 + marker.len() as int) =~= marker);
}

} // verus!
