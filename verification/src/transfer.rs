//! Moving one attachment: into a file under the media directory, unless the
//! file is already there, and from that file to the destination.
//!
//! The caller touches the disk and the network as [`reupload_media`] says and
//! reports what came of it. The handle of the upload stays with the caller.

use vstd::prelude::*;
use vstd::string::*;
use crate::config::{Config, Settings};
use crate::media::{get_file_extension, spec_file_extension, Media};
use crate::message::SourceMessage;
use crate::text::{
    spec_decimal, push_decimal, spec_unexpected_message, spec_with_context, unexpected_message,
    with_context,
};

verus! {

/// The step of a transfer that an error belongs to.
#[derive(Clone, Copy, PartialEq, Eq, Structural, Debug)]
pub enum TransferStep {
    CreateMediaDirectory,
    OpenMediaFile,
    NextChunk,
    WriteMediaFile,
    Upload,
    /// The caller reported something that the state was not waiting for.
    Unexpected,
}

/// Why a transfer ended without an upload.
#[derive(Clone, Debug, PartialEq, Eq)]
pub struct TransferError {
    pub step: TransferStep,
    /// What the failed step reported; empty for `Unexpected`.
    pub cause: String,
}

pub ghost struct TransferErrorView {
    pub step: TransferStep,
    pub cause: Seq<char>,
}

impl View for TransferError {
    type V = TransferErrorView;

    open spec fn view(&self) -> TransferErrorView {
        TransferErrorView { step: self.step, cause: self.cause@ }
    }
}

/// The failure in words: what was attempted and what went wrong. A failed
/// upload is reported by its cause alone.
pub open spec fn spec_transfer_error_message(error: TransferErrorView) -> Seq<char> {
    match error.step {
        TransferStep::CreateMediaDirectory => spec_with_context(
            "Failed to create media directory"@,
            error.cause,
        ),
        TransferStep::OpenMediaFile => spec_with_context(
            "Failed to open media file"@,
            error.cause,
        ),
        TransferStep::NextChunk => spec_with_context("Failed to get next chunk"@, error.cause),
        TransferStep::WriteMediaFile => spec_with_context(
            "Failed to write to media file"@,
            error.cause,
        ),
        TransferStep::Upload => error.cause,
        TransferStep::Unexpected => spec_unexpected_message(),
    }
}

impl TransferError {
    /// The failure in words.
    pub fn message(&self) -> (message: String)
        ensures
            message@ == spec_transfer_error_message(self@),
    {
        let cause = self.cause.as_str();
        match self.step {
            TransferStep::CreateMediaDirectory => with_context(
                "Failed to create media directory",
                cause,
            ),
            TransferStep::OpenMediaFile => with_context("Failed to open media file", cause),
            TransferStep::NextChunk => with_context("Failed to get next chunk", cause),
            TransferStep::WriteMediaFile => with_context("Failed to write to media file", cause),
            TransferStep::Upload => String::from_str(cause),
            TransferStep::Unexpected => unexpected_message(),
        }
    }
}

/// Where a transfer stands: each state waits for the outcome of the step
/// that was named last.
#[derive(Clone, Copy, PartialEq, Eq, Structural, Debug)]
pub enum TransferState {
    CreatingDirectory,
    CheckingFile,
    OpeningFile,
    /// Waiting for the next chunk, `received` bytes after the start.
    Fetching { received: u64 },
    /// Waiting for a chunk to be written; `received` counts it already.
    Writing { received: u64 },
    Uploading,
    Done,
    Failed,
}

/// What the caller reports back.
#[derive(Clone, Debug, PartialEq, Eq)]
pub enum TransferEvent {
    DirectoryReady,
    /// Whether a file stands at the destination path.
    FileExists(bool),
    FileOpened,
    Chunk { data: Vec<u8> },
    EndOfChunks,
    ChunkWritten,
    Uploaded,
    /// The step that was asked for failed.
    Failed { cause: String },
}

/// The step to perform next.
#[derive(Clone, Debug, PartialEq, Eq)]
pub enum TransferAction {
    /// Create the directory and those above it; one that exists is no error.
    CreateDirectory { path: String },
    CheckFile { path: String },
    /// Open the file for writing, new and empty.
    OpenFile { path: String },
    NextChunk,
    /// Append `data` to the file; `received` bytes have arrived with it.
    WriteChunk { data: Vec<u8>, received: u64 },
    Upload { path: String },
    /// The upload is made: nothing is left to do.
    Done,
    /// The transfer has failed: nothing is left to do.
    Fail(TransferError),
    /// The event came after the end and changed nothing.
    Stop,
}

pub ghost enum TransferActionView {
    CreateDirectory { path: Seq<char> },
    CheckFile { path: Seq<char> },
    OpenFile { path: Seq<char> },
    NextChunk,
    WriteChunk { data: Seq<u8>, received: u64 },
    Upload { path: Seq<char> },
    Done,
    Fail(TransferErrorView),
    Stop,
}

impl View for TransferAction {
    type V = TransferActionView;

    open spec fn view(&self) -> TransferActionView {
        match *self {
            TransferAction::CreateDirectory { path } => TransferActionView::CreateDirectory {
                path: path@,
            },
            TransferAction::CheckFile { path } => TransferActionView::CheckFile { path: path@ },
            TransferAction::OpenFile { path } => TransferActionView::OpenFile { path: path@ },
            TransferAction::NextChunk => TransferActionView::NextChunk,
            TransferAction::WriteChunk { data, received } => TransferActionView::WriteChunk {
                data: data@,
                received,
            },
            TransferAction::Upload { path } => TransferActionView::Upload { path: path@ },
            TransferAction::Done => TransferActionView::Done,
            TransferAction::Fail(error) => TransferActionView::Fail(error@),
            TransferAction::Stop => TransferActionView::Stop,
        }
    }
}

/// The path of the file that holds the attachment of the message
/// `message_id`: the media directory, `/message-`, the numeral of the
/// message, the suffix of the attachment.
pub open spec fn spec_media_destination(
    media_path: Seq<char>,
    message_id: int,
    media: Media,
) -> Seq<char> {
    media_path + seq!['/', 'm', 'e', 's', 's', 'a', 'g', 'e', '-'] + spec_decimal(message_id)
        + spec_file_extension(media)
}

/// The count of bytes after `count` more have arrived; it stops at the
/// largest number that fits.
pub open spec fn spec_received(received: u64, count: nat) -> u64 {
    if received + count <= u64::MAX {
        (received + count) as u64
    } else {
        u64::MAX
    }
}

pub open spec fn spec_transfer_fail(step: TransferStep, cause: Seq<char>) -> (
    TransferState,
    TransferActionView,
) {
    (TransferState::Failed, TransferActionView::Fail(TransferErrorView { step, cause }))
}

pub open spec fn spec_transfer_unexpected() -> (TransferState, TransferActionView) {
    spec_transfer_fail(TransferStep::Unexpected, Seq::empty())
}

pub open spec fn spec_begin_reupload(settings: Settings) -> (TransferState, TransferActionView) {
    (
        TransferState::CreatingDirectory,
        TransferActionView::CreateDirectory { path: settings.media_path },
    )
}

/// The state after `event` and the step to perform next, for the attachment
/// whose file stands at `destination`.
pub open spec fn spec_transfer(
    state: TransferState,
    destination: Seq<char>,
    event: TransferEvent,
) -> (TransferState, TransferActionView) {
    match state {
        TransferState::CreatingDirectory => match event {
            TransferEvent::DirectoryReady => (
                TransferState::CheckingFile,
                TransferActionView::CheckFile { path: destination },
            ),
            TransferEvent::Failed { cause } => spec_transfer_fail(
                TransferStep::CreateMediaDirectory,
                cause@,
            ),
            _ => spec_transfer_unexpected(),
        },
        TransferState::CheckingFile => match event {
            TransferEvent::FileExists(true) => (
                TransferState::Uploading,
                TransferActionView::Upload { path: destination },
            ),
            TransferEvent::FileExists(false) => (
                TransferState::OpeningFile,
                TransferActionView::OpenFile { path: destination },
            ),
            _ => spec_transfer_unexpected(),
        },
        TransferState::OpeningFile => match event {
            TransferEvent::FileOpened => (
                TransferState::Fetching { received: 0 },
                TransferActionView::NextChunk,
            ),
            TransferEvent::Failed { cause } => spec_transfer_fail(
                TransferStep::OpenMediaFile,
                cause@,
            ),
            _ => spec_transfer_unexpected(),
        },
        TransferState::Fetching { received } => match event {
            TransferEvent::Chunk { data } => (
                TransferState::Writing { received: spec_received(received, data@.len()) },
                TransferActionView::WriteChunk {
                    data: data@,
                    received: spec_received(received, data@.len()),
                },
            ),
            TransferEvent::EndOfChunks => (
                TransferState::Uploading,
                TransferActionView::Upload { path: destination },
            ),
            TransferEvent::Failed { cause } => spec_transfer_fail(TransferStep::NextChunk, cause@),
            _ => spec_transfer_unexpected(),
        },
        TransferState::Writing { received } => match event {
            TransferEvent::ChunkWritten => (
                TransferState::Fetching { received },
                TransferActionView::NextChunk,
            ),
            TransferEvent::Failed { cause } => spec_transfer_fail(
                TransferStep::WriteMediaFile,
                cause@,
            ),
            _ => spec_transfer_unexpected(),
        },
        TransferState::Uploading => match event {
            TransferEvent::Uploaded => (TransferState::Done, TransferActionView::Done),
            TransferEvent::Failed { cause } => spec_transfer_fail(TransferStep::Upload, cause@),
            _ => spec_transfer_unexpected(),
        },
        TransferState::Done => (TransferState::Done, TransferActionView::Stop),
        TransferState::Failed => (TransferState::Failed, TransferActionView::Stop),
    }
}

/// The state after `event` and the step to perform next, for the attachment
/// `media` of `message`.
pub open spec fn spec_reupload_media(
    state: TransferState,
    settings: Settings,
    message: SourceMessage,
    media: Media,
    event: TransferEvent,
) -> (TransferState, TransferActionView) {
    spec_transfer(
        state,
        spec_media_destination(settings.media_path, message.id as int, media),
        event,
    )
}

/// The path of the file that holds the attachment `media` of `message`.
pub fn media_destination(config: &Config, message: &SourceMessage, media: &Media) -> (path: String)
    ensures
        path@ == spec_media_destination(config@.media_path, message.id as int, *media),
{
    proof {
        reveal_strlit("/message-");
    }
    let mut path = String::from_str(config.media_path());
    path.append("/message-");
    push_decimal(&mut path, message.id as i64);
    let suffix = get_file_extension(media);
    path.append(suffix.as_str());
    assert(path@ =~= spec_media_destination(config@.media_path, message.id as int, *media));
    path
}

fn fail(step: TransferStep, cause: String) -> (next: (TransferState, TransferAction))
    ensures
        next.0 == TransferState::Failed,
        next.1@ == spec_transfer_fail(step, cause@).1,
{
    (TransferState::Failed, TransferAction::Fail(TransferError { step, cause }))
}

fn unexpected() -> (next: (TransferState, TransferAction))
    ensures
        next.0 == spec_transfer_unexpected().0,
        next.1@ == spec_transfer_unexpected().1,
{
    fail(TransferStep::Unexpected, String::new())
}

fn received_after(received: u64, count: usize) -> (total: u64)
    ensures
        total == spec_received(received, count as nat),
{
    let count = count as u64;
    if received <= u64::MAX - count {
        received + count
    } else {
        u64::MAX
    }
}

/// The first step of a transfer: make sure that the media directory exists.
pub fn begin_reupload(config: &Config) -> (next: (TransferState, TransferAction))
    ensures
        next.0 == spec_begin_reupload(config@).0,
        next.1@ == spec_begin_reupload(config@).1,
{
    (
        TransferState::CreatingDirectory,
        TransferAction::CreateDirectory { path: String::from_str(config.media_path()) },
    )
}

/// Takes the transfer of the attachment `media` of `message` one step
/// further: from the state and what the caller reports to the next state and
/// the step to perform. A file that stands at the destination is uploaded as
/// it is; only a missing one is fetched, chunk by chunk in the order of
/// arrival.
pub fn reupload_media(
    state: TransferState,
    config: &Config,
    message: &SourceMessage,
    media: &Media,
    event: TransferEvent,
) -> (next: (TransferState, TransferAction))
    ensures
        next.0 == spec_reupload_media(state, config@, *message, *media, event).0,
        next.1@ == spec_reupload_media(state, config@, *message, *media, event).1,
{
    match state {
        TransferState::CreatingDirectory => match event {
            TransferEvent::DirectoryReady => (
                TransferState::CheckingFile,
                TransferAction::CheckFile { path: media_destination(config, message, media) },
            ),
            TransferEvent::Failed { cause } => fail(TransferStep::CreateMediaDirectory, cause),
            _ => unexpected(),
        },
        TransferState::CheckingFile => match event {
            TransferEvent::FileExists(true) => (
                TransferState::Uploading,
                TransferAction::Upload { path: media_destination(config, message, media) },
            ),
            TransferEvent::FileExists(false) => (
                TransferState::OpeningFile,
                TransferAction::OpenFile { path: media_destination(config, message, media) },
            ),
            _ => unexpected(),
        },
        TransferState::OpeningFile => match event {
            TransferEvent::FileOpened => (
                TransferState::Fetching { received: 0 },
                TransferAction::NextChunk,
            ),
            TransferEvent::Failed { cause } => fail(TransferStep::OpenMediaFile, cause),
            _ => unexpected(),
        },
        TransferState::Fetching { received } => match event {
            TransferEvent::Chunk { data } => {
                let total = received_after(received, data.len());
                (
                    TransferState::Writing { received: total },
                    TransferAction::WriteChunk { data, received: total },
                )
            },
            TransferEvent::EndOfChunks => (
                TransferState::Uploading,
                TransferAction::Upload { path: media_destination(config, message, media) },
            ),
            TransferEvent::Failed { cause } => fail(TransferStep::NextChunk, cause),
            _ => unexpected(),
        },
        TransferState::Writing { received } => match event {
            TransferEvent::ChunkWritten => (
                TransferState::Fetching { received },
                TransferAction::NextChunk,
            ),
            TransferEvent::Failed { cause } => fail(TransferStep::WriteMediaFile, cause),
            _ => unexpected(),
        },
        TransferState::Uploading => match event {
            TransferEvent::Uploaded => (TransferState::Done, TransferAction::Done),
            TransferEvent::Failed { cause } => fail(TransferStep::Upload, cause),
            _ => unexpected(),
        },
        TransferState::Done => (TransferState::Done, TransferAction::Stop),
        TransferState::Failed => (TransferState::Failed, TransferAction::Stop),
    }
}

/// The state after all of `events`, reported one by one from `state` on, and
/// the steps that were named on the way.
pub open spec fn spec_transfer_run(
    state: TransferState,
    destination: Seq<char>,
    events: Seq<TransferEvent>,
) -> (TransferState, Seq<TransferActionView>)
    decreases events.len(),
{
    if events.len() == 0 {
        (state, Seq::empty())
    } else {
        let first = spec_transfer(state, destination, events[0]);
        let rest = spec_transfer_run(first.0, destination, events.drop_first());
        (rest.0, seq![first.1] + rest.1)
    }
}

/// A step that belongs to fetching the attachment into the file.
pub open spec fn spec_fetches(action: TransferActionView) -> bool {
    action is OpenFile || action is NextChunk || action is WriteChunk
}

/// A run names one step for each event.
pub proof fn lemma_transfer_run_len(
    state: TransferState,
    destination: Seq<char>,
    events: Seq<TransferEvent>,
)
    ensures
        spec_transfer_run(state, destination, events).1.len() == events.len(),
    decreases events.len(),
{
    if events.len() > 0 {
        let first = spec_transfer(state, destination, events[0]);
        lemma_transfer_run_len(first.0, destination, events.drop_first());
    }
}

/// From the upload on, nothing is fetched any more.
pub proof fn lemma_no_fetch_after_upload(
    state: TransferState,
    destination: Seq<char>,
    events: Seq<TransferEvent>,
)
    requires
        state is Uploading || state is Done || state is Failed,
    ensures
        forall|i: int|
            0 <= i < events.len() ==> !spec_fetches(
                #[trigger] spec_transfer_run(state, destination, events).1[i],
            ),
    decreases events.len(),
{
    lemma_transfer_run_len(state, destination, events);
    if events.len() > 0 {
        let first = spec_transfer(state, destination, events[0]);
        lemma_no_fetch_after_upload(first.0, destination, events.drop_first());
        lemma_transfer_run_len(first.0, destination, events.drop_first());
        let rest = spec_transfer_run(first.0, destination, events.drop_first());
        assert forall|i: int| 0 <= i < events.len() implies !spec_fetches(
            #[trigger] spec_transfer_run(state, destination, events).1[i],
        ) by {
            if i > 0 {
                assert(spec_transfer_run(state, destination, events).1[i] == rest.1[i - 1]);
            }
        }
    }
}

/// Where a file already stands at the destination, whatever it holds, the
/// transfer goes from the check straight to the upload of that file: the file
/// is not opened, no chunk is asked for and none is written, whatever the
/// caller reports afterwards.
pub proof fn lemma_existing_file_is_not_fetched(
    destination: Seq<char>,
    later: Seq<TransferEvent>,
)
    ensures
        ({
            let events = seq![TransferEvent::DirectoryReady, TransferEvent::FileExists(true)]
                + later;
            let run = spec_transfer_run(TransferState::CreatingDirectory, destination, events);
            &&& run.1.len() == later.len() + 2
            &&& run.1[0] == (TransferActionView::CheckFile { path: destination })
            &&& run.1[1] == (TransferActionView::Upload { path: destination })
            &&& forall|i: int| 0 <= i < run.1.len() ==> !spec_fetches(#[trigger] run.1[i])
        }),
{
    let events = seq![TransferEvent::DirectoryReady, TransferEvent::FileExists(true)] + later;
    let run = spec_transfer_run(TransferState::CreatingDirectory, destination, events);
    let checked = events.drop_first();
    assert(checked.drop_first() =~= later);
    assert(checked[0] == TransferEvent::FileExists(true));
    let tail = spec_transfer_run(TransferState::Uploading, destination, later);
    let middle = spec_transfer_run(TransferState::CheckingFile, destination, checked);
    assert(middle.1 == seq![TransferActionView::Upload { path: destination }] + tail.1);
    assert(run.1 == seq![TransferActionView::CheckFile { path: destination }] + middle.1);
    lemma_transfer_run_len(TransferState::Uploading, destination, later);
    lemma_no_fetch_after_upload(TransferState::Uploading, destination, later);
    assert forall|i: int| 0 <= i < run.1.len() implies !spec_fetches(#[trigger] run.1[i]) by {
        if i >= 2 {
            assert(run.1[i] == tail.1[i - 2]);
        }
    }
}

/// What is written is the chunk that has just arrived, and the next chunk is
/// asked for only once the file is open or the chunk before is written: the
/// file receives the chunks whole and in the order of their arrival.
pub proof fn lemma_chunks_written_in_order(
    state: TransferState,
    destination: Seq<char>,
    event: TransferEvent,
)
    ensures
        spec_transfer(state, destination, event).1 matches TransferActionView::WriteChunk {
            data,
            received,
        } ==> {
            &&& state matches TransferState::Fetching { received: before }
            &&& event matches TransferEvent::Chunk { data: chunk }
            &&& data == chunk@
            &&& received == spec_received(before, chunk@.len())
            &&& spec_transfer(state, destination, event).0 == (TransferState::Writing {
                received,
            })
        },
        spec_transfer(state, destination, event).1 is NextChunk ==> (state is OpeningFile && event
            is FileOpened) || (state is Writing && event is ChunkWritten),
{
}

/// What the caller reports while `chunks` arrive and are written one after
/// the other.
pub open spec fn spec_chunk_reports(chunks: Seq<Vec<u8>>) -> Seq<TransferEvent>
    decreases chunks.len(),
{
    if chunks.len() == 0 {
        Seq::empty()
    } else {
        seq![TransferEvent::Chunk { data: chunks[0] }, TransferEvent::ChunkWritten]
            + spec_chunk_reports(chunks.drop_first())
    }
}

/// The bytes of `chunks`, one chunk after the other.
pub open spec fn spec_joined(chunks: Seq<Vec<u8>>) -> Seq<u8>
    decreases chunks.len(),
{
    if chunks.len() == 0 {
        Seq::empty()
    } else {
        chunks[0]@ + spec_joined(chunks.drop_first())
    }
}

/// The bytes that `actions` ask to append to the file, in their order.
pub open spec fn spec_written(actions: Seq<TransferActionView>) -> Seq<u8>
    decreases actions.len(),
{
    if actions.len() == 0 {
        Seq::empty()
    } else {
        let rest = spec_written(actions.drop_first());
        match actions[0] {
            TransferActionView::WriteChunk { data, .. } => data + rest,
            _ => rest,
        }
    }
}

/// While chunks arrive and are written, the file is asked to take exactly
/// their bytes in the order of arrival, and the count of bytes grows by
/// their lengths.
pub proof fn lemma_download_keeps_bytes_and_count(
    destination: Seq<char>,
    received: u64,
    chunks: Seq<Vec<u8>>,
)
    ensures
        ({
            let run = spec_transfer_run(
                TransferState::Fetching { received },
                destination,
                spec_chunk_reports(chunks),
            );
            &&& run.0 == (TransferState::Fetching {
                received: spec_received(received, spec_joined(chunks).len()),
            })
            &&& spec_written(run.1) == spec_joined(chunks)
        }),
    decreases chunks.len(),
{
    if chunks.len() > 0 {
        let events = spec_chunk_reports(chunks);
        let later = spec_chunk_reports(chunks.drop_first());
        let counted = spec_received(received, chunks[0]@.len());
        let arrived = spec_transfer(TransferState::Fetching { received }, destination, events[0]);
        let after_first = events.drop_first();
        assert(after_first[0] == TransferEvent::ChunkWritten);
        assert(after_first.drop_first() =~= later);
        let written = spec_transfer(arrived.0, destination, after_first[0]);
        let rest = spec_transfer_run(
            TransferState::Fetching { received: counted },
            destination,
            later,
        );
        lemma_download_keeps_bytes_and_count(destination, counted, chunks.drop_first());
        let middle = spec_transfer_run(arrived.0, destination, after_first);
        assert(middle.1 == seq![written.1] + rest.1);
        let run = spec_transfer_run(TransferState::Fetching { received }, destination, events);
        assert(run.1 == seq![arrived.1] + middle.1);
        assert(middle.1.drop_first() =~= rest.1);
        assert(run.1.drop_first() =~= middle.1);
        assert(spec_written(middle.1) == spec_written(rest.1));
        assert(spec_written(run.1) == chunks[0]@ + spec_written(middle.1));
    }
}

} // verus!
