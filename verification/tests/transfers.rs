use tg_exporter::config::{Config, EnvValues};
use tg_exporter::media::Media;
use tg_exporter::message::SourceMessage;
use tg_exporter::transfer::{
    begin_reupload, media_destination, reupload_media, TransferAction, TransferError,
    TransferEvent, TransferState, TransferStep,
};

fn transfer_config(media_path: Option<&str>) -> Config {
    Config::from_env(EnvValues {
        api_id: None,
        api_hash: "hash".to_string(),
        source_chat_id: 1,
        target_chat_id: None,
        export_hashtags: String::new(),
        session_path: None,
        media_path: media_path.map(|p| p.to_string()),
        sleep_duration: None,
    })
}

fn pdf() -> Media {
    Media::Document { name: "report.pdf".to_string(), mime_type: None }
}

fn carrier(id: i32, media: Media) -> SourceMessage {
    SourceMessage { id, chat_id: 10, text: String::new(), grouped_id: None, media: Some(media) }
}

fn transfer_failed(cause: &str) -> TransferEvent {
    TransferEvent::Failed { cause: cause.to_string() }
}

fn transfer_failure(step: TransferStep, cause: &str) -> TransferAction {
    TransferAction::Fail(TransferError { step, cause: cause.to_string() })
}

fn run_transfer(
    state: TransferState,
    events: Vec<TransferEvent>,
) -> (TransferState, Vec<TransferAction>) {
    let config = transfer_config(Some("store"));
    let media = pdf();
    let message = carrier(31, pdf());
    let mut state = state;
    let mut actions = Vec::new();
    for event in events {
        let (next, action) = reupload_media(state, &config, &message, &media, event);
        state = next;
        actions.push(action);
    }
    (state, actions)
}

fn fetches(action: &TransferAction) -> bool {
    matches!(
        action,
        TransferAction::OpenFile { .. } | TransferAction::NextChunk | TransferAction::WriteChunk { .. }
    )
}

#[test]
fn destination_is_directory_message_number_and_suffix() {
    let config = transfer_config(Some("/srv/media"));
    assert_eq!(
        media_destination(&config, &carrier(31, pdf()), &pdf()),
        "/srv/media/message-31.pdf"
    );
    assert_eq!(
        media_destination(&config, &carrier(7, Media::Photo), &Media::Photo),
        "/srv/media/message-7.jpg"
    );
}

#[test]
fn destination_under_the_default_directory() {
    let config = transfer_config(None);
    assert_eq!(
        media_destination(&config, &carrier(5, Media::Contact), &Media::Contact),
        "media/message-5.vcf"
    );
    let nameless = Media::Document { name: String::new(), mime_type: None };
    assert_eq!(media_destination(&config, &carrier(-5, nameless.clone()), &nameless), "media/message--5");
}

#[test]
fn transfer_begins_with_the_directory() {
    assert_eq!(
        begin_reupload(&transfer_config(Some("store"))),
        (TransferState::CreatingDirectory, TransferAction::CreateDirectory { path: "store".to_string() })
    );
}

#[test]
fn existing_file_is_uploaded_without_download() {
    let (state, actions) = run_transfer(
        begin_reupload(&transfer_config(None)).0,
        vec![TransferEvent::DirectoryReady, TransferEvent::FileExists(true), TransferEvent::Uploaded],
    );
    assert_eq!(state, TransferState::Done);
    assert_eq!(
        actions,
        vec![
            TransferAction::CheckFile { path: "store/message-31.pdf".to_string() },
            TransferAction::Upload { path: "store/message-31.pdf".to_string() },
            TransferAction::Done,
        ]
    );
    assert!(!actions.iter().any(fetches));
}

#[test]
fn existing_file_is_never_fetched_whatever_follows() {
    let (_, actions) = run_transfer(
        TransferState::CreatingDirectory,
        vec![
            TransferEvent::DirectoryReady,
            TransferEvent::FileExists(true),
            TransferEvent::Chunk { data: vec![1, 2, 3] },
            TransferEvent::FileOpened,
            TransferEvent::ChunkWritten,
            TransferEvent::EndOfChunks,
        ],
    );
    assert!(!actions.iter().any(fetches));
}

#[test]
fn missing_file_is_fetched_chunk_by_chunk() {
    let (state, actions) = run_transfer(
        TransferState::CreatingDirectory,
        vec![
            TransferEvent::DirectoryReady,
            TransferEvent::FileExists(false),
            TransferEvent::FileOpened,
            TransferEvent::Chunk { data: vec![1, 2, 3] },
            TransferEvent::ChunkWritten,
            TransferEvent::Chunk { data: vec![4, 5] },
            TransferEvent::ChunkWritten,
            TransferEvent::EndOfChunks,
            TransferEvent::Uploaded,
        ],
    );
    assert_eq!(state, TransferState::Done);
    assert_eq!(
        actions,
        vec![
            TransferAction::CheckFile { path: "store/message-31.pdf".to_string() },
            TransferAction::OpenFile { path: "store/message-31.pdf".to_string() },
            TransferAction::NextChunk,
            TransferAction::WriteChunk { data: vec![1, 2, 3], received: 3 },
            TransferAction::NextChunk,
            TransferAction::WriteChunk { data: vec![4, 5], received: 5 },
            TransferAction::NextChunk,
            TransferAction::Upload { path: "store/message-31.pdf".to_string() },
            TransferAction::Done,
        ]
    );
}

#[test]
fn empty_attachment_is_uploaded_as_an_empty_file() {
    let (state, actions) = run_transfer(
        TransferState::OpeningFile,
        vec![TransferEvent::FileOpened, TransferEvent::EndOfChunks],
    );
    assert_eq!(state, TransferState::Uploading);
    assert_eq!(actions[1], TransferAction::Upload { path: "store/message-31.pdf".to_string() });
}

#[test]
fn empty_chunk_counts_nothing() {
    let (state, actions) = run_transfer(
        TransferState::Fetching { received: 9 },
        vec![TransferEvent::Chunk { data: vec![] }],
    );
    assert_eq!(state, TransferState::Writing { received: 9 });
    assert_eq!(actions, vec![TransferAction::WriteChunk { data: vec![], received: 9 }]);
}

#[test]
fn byte_count_stops_at_the_largest_number() {
    let (state, _) = run_transfer(
        TransferState::Fetching { received: u64::MAX - 1 },
        vec![TransferEvent::Chunk { data: vec![0; 5] }],
    );
    assert_eq!(state, TransferState::Writing { received: u64::MAX });
    let (state, _) = run_transfer(
        TransferState::Fetching { received: u64::MAX - 5 },
        vec![TransferEvent::Chunk { data: vec![0; 5] }],
    );
    assert_eq!(state, TransferState::Writing { received: u64::MAX });
    let (state, _) = run_transfer(
        TransferState::Fetching { received: u64::MAX - 6 },
        vec![TransferEvent::Chunk { data: vec![0; 5] }],
    );
    assert_eq!(state, TransferState::Writing { received: u64::MAX - 1 });
}

#[test]
fn every_transfer_step_reports_its_own_failure() {
    let cases = vec![
        (TransferState::CreatingDirectory, TransferStep::CreateMediaDirectory),
        (TransferState::OpeningFile, TransferStep::OpenMediaFile),
        (TransferState::Fetching { received: 1 }, TransferStep::NextChunk),
        (TransferState::Writing { received: 1 }, TransferStep::WriteMediaFile),
        (TransferState::Uploading, TransferStep::Upload),
    ];
    for (state, step) in cases {
        let (next, actions) = run_transfer(state, vec![transfer_failed("io")]);
        assert_eq!(next, TransferState::Failed);
        assert_eq!(actions, vec![transfer_failure(step, "io")]);
    }
}

#[test]
fn failure_in_the_middle_ends_the_transfer() {
    let (state, actions) = run_transfer(
        TransferState::CreatingDirectory,
        vec![
            TransferEvent::DirectoryReady,
            TransferEvent::FileExists(false),
            TransferEvent::FileOpened,
            TransferEvent::Chunk { data: vec![1] },
            transfer_failed("disk full"),
            TransferEvent::ChunkWritten,
        ],
    );
    assert_eq!(state, TransferState::Failed);
    assert_eq!(actions[4], transfer_failure(TransferStep::WriteMediaFile, "disk full"));
    assert_eq!(actions[5], TransferAction::Stop);
}

#[test]
fn report_that_does_not_fit_fails_the_transfer() {
    let (state, actions) = run_transfer(TransferState::CheckingFile, vec![transfer_failed("?")]);
    assert_eq!(state, TransferState::Failed);
    assert_eq!(actions, vec![transfer_failure(TransferStep::Unexpected, "")]);
    let (state, _) = run_transfer(TransferState::Uploading, vec![TransferEvent::FileOpened]);
    assert_eq!(state, TransferState::Failed);
    let (state, _) = run_transfer(TransferState::Writing { received: 0 }, vec![TransferEvent::EndOfChunks]);
    assert_eq!(state, TransferState::Failed);
}

#[test]
fn ended_transfer_stays_as_it_is() {
    let (state, actions) = run_transfer(TransferState::Done, vec![TransferEvent::Uploaded]);
    assert_eq!((state, actions), (TransferState::Done, vec![TransferAction::Stop]));
    let (state, actions) = run_transfer(TransferState::Failed, vec![TransferEvent::DirectoryReady]);
    assert_eq!((state, actions), (TransferState::Failed, vec![TransferAction::Stop]));
}

#[test]
fn transfer_errors_in_words() {
    let say = |step: TransferStep| TransferError { step, cause: "why".to_string() }.message();
    assert_eq!(say(TransferStep::CreateMediaDirectory), "Failed to create media directory: why");
    assert_eq!(say(TransferStep::OpenMediaFile), "Failed to open media file: why");
    assert_eq!(say(TransferStep::NextChunk), "Failed to get next chunk: why");
    assert_eq!(say(TransferStep::WriteMediaFile), "Failed to write to media file: why");
    assert_eq!(say(TransferStep::Upload), "why");
    assert_eq!(say(TransferStep::Unexpected), "Unexpected event");
}
