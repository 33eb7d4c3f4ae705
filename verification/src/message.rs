//! A source message, the tag that marks its copy, and the text of the copy.

use vstd::prelude::*;
use vstd::string::*;
use crate::media::Media;
use crate::text::{spec_decimal, lemma_decimal_chars, lemma_decimal_injective, push_decimal};

verus! {

/// A message as read from the source chat.
#[derive(Clone, Debug, PartialEq, Eq)]
pub struct SourceMessage {
    pub id: i32,
    pub chat_id: i64,
    pub text: String,
    /// Shared by the messages of one album.
    pub grouped_id: Option<i64>,
    pub media: Option<Media>,
}

/// The tag of the message `message_id` of the chat `chat_id`: the two
/// numerals with an underscore between them.
pub open spec fn spec_dedup_tag(chat_id: int, message_id: int) -> Seq<char> {
    spec_decimal(chat_id) + seq!['_'] + spec_decimal(message_id)
}

/// The tag behind its marker `#`, as it stands in a copy and as it is
/// searched for.
pub open spec fn spec_dedup_marker(chat_id: int, message_id: int) -> Seq<char> {
    seq!['#'] + spec_dedup_tag(chat_id, message_id)
}

/// ` group ` and the numeral of the album, or nothing for a message outside
/// any album.
pub open spec fn spec_group_suffix(grouped_id: Option<i64>) -> Seq<char> {
    match grouped_id {
        Some(group) => seq![' ', 'g', 'r', 'o', 'u', 'p', ' '] + spec_decimal(group as int),
        None => Seq::empty(),
    }
}

/// The text of the copy: marker and tag, a space, the hashtags, the group
/// suffix, an empty line, the text of the message.
pub open spec fn spec_outgoing_text(hashtags: Seq<char>, message: SourceMessage) -> Seq<char> {
    spec_dedup_marker(message.chat_id as int, message.id as int) + seq![' '] + hashtags
        + spec_group_suffix(message.grouped_id) + seq!['\n', '\n'] + message.text@
}

impl SourceMessage {
    pub open spec fn spec_tag(self) -> Seq<char> {
        spec_dedup_tag(self.chat_id as int, self.id as int)
    }

    pub open spec fn spec_marker(self) -> Seq<char> {
        spec_dedup_marker(self.chat_id as int, self.id as int)
    }
}

/// The tag of `message`.
pub fn message_dedup_tag(message: &SourceMessage) -> (tag: String)
    ensures
        tag@ == message.spec_tag(),
{
    proof {
        reveal_strlit("_");
    }
    let mut tag = String::new();
    push_decimal(&mut tag, message.chat_id);
    tag.append("_");
    push_decimal(&mut tag, message.id as i64);
    assert(tag@ =~= message.spec_tag());
    tag
}

/// The tag of `message` behind its marker.
pub fn dedup_marker(message: &SourceMessage) -> (marker: String)
    ensures
        marker@ == message.spec_marker(),
{
    proof {
        reveal_strlit("#");
    }
    let mut marker = String::from_str("#");
    let tag = message_dedup_tag(message);
    marker.append(tag.as_str());
    assert(marker@ =~= message.spec_marker());
    marker
}

/// The text under which `message` is sent on, given the configured hashtags.
pub fn outgoing_text(hashtags: &str, message: &SourceMessage) -> (text: String)
    ensures
        text@ == spec_outgoing_text(hashtags@, *message),
{
    proof {
        reveal_strlit(" ");
        reveal_strlit(" group ");
        reveal_strlit("\n\n");
    }
    let mut text = dedup_marker(message);
    text.append(" ");
    text.append(hashtags);
    match message.grouped_id {
        Some(group) => {
            text.append(" group ");
            push_decimal(&mut text, group);
            assert(text@ =~= message.spec_marker() + seq![' '] + hashtags@ + spec_group_suffix(
                message.grouped_id,
            ));
        },
        None => {
            assert(text@ =~= message.spec_marker() + seq![' '] + hashtags@ + spec_group_suffix(
                message.grouped_id,
            ));
        },
    }
    text.append("\n\n");
    text.append(message.text.as_str());
    assert(text@ =~= spec_outgoing_text(hashtags@, *message));
    text
}

/// The tag depends on the two identifiers alone: messages that agree in
/// them have the same tag, whatever else they hold.
pub proof fn lemma_tag_is_deterministic(one: SourceMessage, other: SourceMessage)
    requires
        one.chat_id == other.chat_id,
        one.id == other.id,
    ensures
        one.spec_tag() == other.spec_tag(),
        one.spec_marker() == other.spec_marker(),
{
}

/// No two messages share a tag: equal tags come from equal identifiers.
pub proof fn lemma_tags_do_not_collide(chat_a: int, id_a: int, chat_b: int, id_b: int)
    requires
        spec_dedup_tag(chat_a, id_a) == spec_dedup_tag(chat_b, id_b),
    ensures
        chat_a == chat_b,
        id_a == id_b,
{
    let tag_a = spec_dedup_tag(chat_a, id_a);
    let tag_b = spec_dedup_tag(chat_b, id_b);
    let len_a = spec_decimal(chat_a).len() as int;
    let len_b = spec_decimal(chat_b).len() as int;
    lemma_decimal_chars(chat_a);
    lemma_decimal_chars(chat_b);
    assert(tag_a[len_a] == '_');
    assert(tag_b[len_b] == '_');
    if len_a < len_b {
        assert(tag_b[len_a] == spec_decimal(chat_b)[len_a]);
    } else if len_b < len_a {
        assert(tag_a[len_b] == spec_decimal(chat_a)[len_b]);
    }
    assert(len_a == len_b);
    assert(tag_a.subrange(0, len_a) =~= spec_decimal(chat_a));
    assert(tag_b.subrange(0, len_b) =~= spec_decimal(chat_b));
    assert(tag_a.subrange(len_a + 1, tag_a.len() as int) =~= spec_decimal(id_a));
    assert(tag_b.subrange(len_b + 1, tag_b.len() as int) =~= spec_decimal(id_b));
    lemma_decimal_injective(chat_a, chat_b);
    lemma_decimal_injective(id_a, id_b);
}

/// A message within an album gets ` group ` and the album's numeral right
/// behind the hashtags; a message outside any album gets nothing there.
pub proof fn lemma_group_suffix_follows_hashtags(hashtags: Seq<char>, message: SourceMessage)
    ensures
        ({
            let head = message.spec_marker() + seq![' '] + hashtags;
            let tail = seq!['\n', '\n'] + message.text@;
            match message.grouped_id {
                Some(group) => spec_outgoing_text(hashtags, message) == head + seq![
                    ' ',
                    'g',
                    'r',
                    'o',
                    'u',
                    'p',
                    ' ',
                ] + spec_decimal(group as int) + tail,
                None => spec_outgoing_text(hashtags, message) == head + tail,
            }
        }),
{
    let head = message.spec_marker() + seq![' '] + hashtags;
    let tail = seq!['\n', '\n'] + message.text@;
    match message.grouped_id {
        Some(group) => {
            assert(spec_outgoing_text(hashtags, message) =~= head + seq![
                ' ',
                'g',
                'r',
                'o',
                'u',
                'p',
                ' ',
            ] + spec_decimal(group as int) + tail);
        },
        None => {
            assert(spec_outgoing_text(hashtags, message) =~= head + tail);
        },
    }
}

} // verus!
