//! Finding a chat among the account's dialogs.

use vstd::prelude::*;
use vstd::string::*;
use crate::text::{spec_with_context, with_context};

verus! {

/// What the walk over the dialogs reports.
#[derive(Clone, Debug, PartialEq, Eq)]
pub enum DialogEvent {
    /// The next dialog, by the identifier of its chat.
    Dialog { chat_id: i64 },
    /// The account has no further dialog.
    EndOfDialogs,
    Failed { cause: String },
}

/// What is known of the chat after one more report.
#[derive(Clone, Debug, PartialEq, Eq)]
pub enum ChatLookup {
    /// Not this dialog: report the next.
    Continue,
    /// The dialog reported last is the chat.
    Found,
    /// No dialog of the account is the chat.
    NotFound,
    /// The walk over the dialogs failed.
    Failed { cause: String },
}

/// The outcome in words where the chat was not found: that the chat is not
/// among the dialogs, or that the walk failed and why. Empty for the other
/// outcomes.
pub open spec fn spec_lookup_error_message(lookup: ChatLookup) -> Seq<char> {
    match lookup {
        ChatLookup::NotFound => "Failed to find chat"@,
        ChatLookup::Failed { cause } => spec_with_context("Failed to get next dialog"@, cause@),
        _ => Seq::empty(),
    }
}

impl ChatLookup {
    /// The failure in words; empty where the outcome is no failure.
    pub fn error_message(&self) -> (message: String)
        ensures
            message@ == spec_lookup_error_message(*self),
    {
        match self {
            ChatLookup::NotFound => String::from_str("Failed to find chat"),
            ChatLookup::Failed { cause } => with_context(
                "Failed to get next dialog",
                cause.as_str(),
            ),
            _ => String::new(),
        }
    }
}

/// What `event` settles about the chat `chat_id`.
pub open spec fn spec_find_chat(chat_id: i64, event: DialogEvent) -> ChatLookup {
    match event {
        DialogEvent::Dialog { chat_id: seen } => if seen == chat_id {
            ChatLookup::Found
        } else {
            ChatLookup::Continue
        },
        DialogEvent::EndOfDialogs => ChatLookup::NotFound,
        DialogEvent::Failed { cause } => ChatLookup::Failed { cause },
    }
}

/// The place of the first of `dialogs` that is the chat `chat_id`, if any.
pub open spec fn spec_first_dialog(dialogs: Seq<i64>, chat_id: i64) -> Option<int>
    decreases dialogs.len(),
{
    if dialogs.len() == 0 {
        None
    } else if dialogs[0] == chat_id {
        Some(0)
    } else {
        match spec_first_dialog(dialogs.drop_first(), chat_id) {
            Some(place) => Some(place + 1),
            None => None,
        }
    }
}

/// Judges one report of the walk over the dialogs in search of the chat
/// `chat_id`: the first dialog of that chat is taken, and the end of the
/// dialogs means that the account does not know the chat.
pub fn find_chat(chat_id: i64, event: DialogEvent) -> (lookup: ChatLookup)
    ensures
        lookup == spec_find_chat(chat_id, event),
{
    match event {
        DialogEvent::Dialog { chat_id: seen } => {
            if seen == chat_id {
                ChatLookup::Found
            } else {
                ChatLookup::Continue
            }
        },
        DialogEvent::EndOfDialogs => ChatLookup::NotFound,
        DialogEvent::Failed { cause } => ChatLookup::Failed { cause },
    }
}

/// A walk that reports the dialogs in order stops at the first one of the
/// chat: every dialog before it is passed over, and where there is none the
/// walk passes over all of them.
pub proof fn lemma_find_chat_takes_first(dialogs: Seq<i64>, chat_id: i64)
    ensures
        match spec_first_dialog(dialogs, chat_id) {
            Some(place) => {
                &&& 0 <= place < dialogs.len()
                &&& spec_find_chat(chat_id, DialogEvent::Dialog { chat_id: dialogs[place] })
                    == ChatLookup::Found
                &&& forall|i: int|
                    0 <= i < place ==> spec_find_chat(
                        chat_id,
                        DialogEvent::Dialog { chat_id: #[trigger] dialogs[i] },
                    ) == ChatLookup::Continue
            },
            None => forall|i: int|
                0 <= i < dialogs.len() ==> spec_find_chat(
                    chat_id,
                    DialogEvent::Dialog { chat_id: #[trigger] dialogs[i] },
                ) == ChatLookup::Continue,
        },
    decreases dialogs.len(),
{
    if dialogs.len() > 0 && dialogs[0] != chat_id {
        let rest = dialogs.drop_first();
        lemma_find_chat_takes_first(rest, chat_id);
        match spec_first_dialog(rest, chat_id) {
            Some(place) => {
                assert forall|i: int| 0 <= i < place + 1 implies spec_find_chat(
                    chat_id,
                    DialogEvent::Dialog { chat_id: #[trigger] dialogs[i] },
                ) == ChatLookup::Continue by {
                    if i > 0 {
                        assert(dialogs[i] == rest[i - 1]);
                    }
                }
            },
            None => {
                assert forall|i: int| 0 <= i < dialogs.len() implies spec_find_chat(
                    chat_id,
                    DialogEvent::Dialog { chat_id: #[trigger] dialogs[i] },
                ) == ChatLookup::Continue by {
                    if i > 0 {
                        assert(dialogs[i] == rest[i - 1]);
                    }
                }
            },
        }
    }
}

} // verus!
