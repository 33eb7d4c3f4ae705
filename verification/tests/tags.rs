use tg_exporter::message::{dedup_marker, message_dedup_tag, outgoing_text, SourceMessage};
use tg_exporter::text::{decimal_string, with_context};

fn tagged(chat_id: i64, id: i32) -> SourceMessage {
    SourceMessage { id, chat_id, text: String::new(), grouped_id: None, media: None }
}

#[test]
fn tag_joins_chat_and_message_numerals() {
    assert_eq!(message_dedup_tag(&tagged(1234567890, 42)), "1234567890_42");
}

#[test]
fn tag_is_the_same_for_the_same_identifiers() {
    let mut one = tagged(-1001234567890, 7);
    one.text = "first".to_string();
    one.grouped_id = Some(3);
    let other = tagged(-1001234567890, 7);
    assert_eq!(message_dedup_tag(&one), message_dedup_tag(&other));
    assert_eq!(message_dedup_tag(&one), "-1001234567890_7");
}

#[test]
fn tags_of_different_messages_differ() {
    assert_ne!(message_dedup_tag(&tagged(1, 23)), message_dedup_tag(&tagged(12, 3)));
    assert_ne!(message_dedup_tag(&tagged(1, 2)), message_dedup_tag(&tagged(1, 3)));
    assert_ne!(message_dedup_tag(&tagged(1, 2)), message_dedup_tag(&tagged(-1, 2)));
}

#[test]
fn tag_of_zero_identifiers() {
    assert_eq!(message_dedup_tag(&tagged(0, 0)), "0_0");
}

#[test]
fn tag_of_extreme_identifiers() {
    assert_eq!(
        message_dedup_tag(&tagged(i64::MIN, i32::MIN)),
        "-9223372036854775808_-2147483648"
    );
    assert_eq!(
        message_dedup_tag(&tagged(i64::MAX, i32::MAX)),
        "9223372036854775807_2147483647"
    );
}

#[test]
fn marker_puts_a_hash_before_the_tag() {
    assert_eq!(dedup_marker(&tagged(55, 8)), "#55_8");
}

#[test]
fn numerals_match_the_standard_rendering() {
    for n in [0i64, 1, 9, 10, 11, 99, 100, 101, 1000, 65535, -1, -9, -10, -12345, i64::MAX, i64::MIN]
    {
        assert_eq!(decimal_string(n), n.to_string());
    }
}

#[test]
fn group_suffix_follows_the_hashtags() {
    let mut message = tagged(-100123, 5);
    message.text = "hello".to_string();
    message.grouped_id = Some(77);
    let text = outgoing_text("#export", &message);
    assert_eq!(text, "#-100123_5 #export group 77\n\nhello");
    assert!(text.contains("#export group 77\n"));
}

#[test]
fn no_group_no_suffix() {
    let mut message = tagged(-100123, 5);
    message.text = "hello".to_string();
    let text = outgoing_text("#export", &message);
    assert_eq!(text, "#-100123_5 #export\n\nhello");
    assert!(!text.contains(" group "));
}

#[test]
fn negative_group_and_empty_parts() {
    let mut message = tagged(1, 2);
    message.grouped_id = Some(-13);
    assert_eq!(outgoing_text("", &message), "#1_2  group -13\n\n");
}

#[test]
fn text_keeps_what_is_not_ascii() {
    let mut message = tagged(3, 4);
    message.text = "привет 🌍".to_string();
    assert_eq!(outgoing_text("#архив", &message), "#3_4 #архив\n\nпривет 🌍");
}

#[test]
fn context_goes_before_the_cause() {
    assert_eq!(with_context("Failed to sign in", "timeout"), "Failed to sign in: timeout");
    assert_eq!(with_context("", ""), ": ");
}
