use tg_exporter::chats::{find_chat, ChatLookup, DialogEvent};

fn walk(dialogs: &[i64], chat_id: i64) -> (ChatLookup, usize) {
    let mut seen = 0;
    for id in dialogs {
        seen += 1;
        match find_chat(chat_id, DialogEvent::Dialog { chat_id: *id }) {
            ChatLookup::Continue => {}
            settled => return (settled, seen),
        }
    }
    (find_chat(chat_id, DialogEvent::EndOfDialogs), seen)
}

#[test]
fn matching_dialog_is_found() {
    assert_eq!(find_chat(9, DialogEvent::Dialog { chat_id: 9 }), ChatLookup::Found);
}

#[test]
fn other_dialog_is_passed_over() {
    assert_eq!(find_chat(9, DialogEvent::Dialog { chat_id: -9 }), ChatLookup::Continue);
}

#[test]
fn end_of_dialogs_means_not_found() {
    let lookup = find_chat(9, DialogEvent::EndOfDialogs);
    assert_eq!(lookup, ChatLookup::NotFound);
    assert_eq!(lookup.error_message(), "Failed to find chat");
}

#[test]
fn failed_walk_is_reported_with_its_cause() {
    let lookup = find_chat(9, DialogEvent::Failed { cause: "flood wait".to_string() });
    assert_eq!(lookup, ChatLookup::Failed { cause: "flood wait".to_string() });
    assert_eq!(lookup.error_message(), "Failed to get next dialog: flood wait");
}

#[test]
fn walk_stops_at_the_first_match() {
    assert_eq!(walk(&[4, 8, 15, 8, 23], 8), (ChatLookup::Found, 2));
    assert_eq!(walk(&[8], 8), (ChatLookup::Found, 1));
}

#[test]
fn walk_without_match_sees_every_dialog() {
    assert_eq!(walk(&[4, 8, 15], 16), (ChatLookup::NotFound, 3));
    assert_eq!(walk(&[], 16), (ChatLookup::NotFound, 0));
}

#[test]
fn outcomes_that_are_no_failure_have_no_message() {
    assert_eq!(ChatLookup::Found.error_message(), "");
    assert_eq!(ChatLookup::Continue.error_message(), "");
}
