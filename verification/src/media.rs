//! Media attachments and the file suffix that each kind is stored under.

use vstd::prelude::*;
use vstd::string::*;

verus! {

/// What a message carries besides its text.
#[derive(Clone, Debug, PartialEq, Eq)]
pub enum Media {
    Photo,
    Document { name: String, mime_type: Option<String> },
    Sticker { name: String, mime_type: Option<String> },
    Contact,
    /// Any kind that is not mirrored: polls, places, dice, web pages.
    Other,
}

/// The kind of an attachment, without what it holds.
#[derive(Clone, Copy, PartialEq, Eq, Structural, Debug)]
pub enum MediaKind {
    Photo,
    Document,
    Sticker,
    Contact,
    Other,
}

/// The subtype that the `mime` crate finds in a media type, `None` where it
/// does not parse.
pub uninterp spec fn spec_mime_subtype(mime_type: Seq<char>) -> Option<Seq<char>>;

/// The extension that `std::path::Path` finds in a file name.
pub uninterp spec fn spec_path_extension(name: Seq<char>) -> Option<Seq<char>>;

pub open spec fn view_of(text: Option<String>) -> Option<Seq<char>> {
    match text {
        Some(t) => Some(t@),
        None => None,
    }
}

impl Media {
    pub open spec fn spec_kind(self) -> MediaKind {
        match self {
            Media::Photo => MediaKind::Photo,
            Media::Document { .. } => MediaKind::Document,
            Media::Sticker { .. } => MediaKind::Sticker,
            Media::Contact => MediaKind::Contact,
            Media::Other => MediaKind::Other,
        }
    }

    /// The declared file name; empty for a kind that has none.
    pub open spec fn spec_name(self) -> Seq<char> {
        match self {
            Media::Document { name, .. } => name@,
            Media::Sticker { name, .. } => name@,
            _ => Seq::empty(),
        }
    }

    /// The declared media type, if the kind has one and it is given.
    pub open spec fn spec_mime_type(self) -> Option<Seq<char>> {
        match self {
            Media::Document { mime_type, .. } => view_of(mime_type),
            Media::Sticker { mime_type, .. } => view_of(mime_type),
            _ => None,
        }
    }

    pub fn kind(&self) -> (kind: MediaKind)
        ensures
            kind == self.spec_kind(),
    {
        match self {
            Media::Photo => MediaKind::Photo,
            Media::Document { .. } => MediaKind::Document,
            Media::Sticker { .. } => MediaKind::Sticker,
            Media::Contact => MediaKind::Contact,
            Media::Other => MediaKind::Other,
        }
    }

    /// Whether the attachment is of a kind that is mirrored.
    pub fn is_supported(&self) -> (supported: bool)
        ensures
            supported == (self.spec_kind() != MediaKind::Other),
    {
        match self {
            Media::Other => false,
            _ => true,
        }
    }
}

/// `.` and the subtype, or nothing where there is no subtype.
pub open spec fn spec_subtype_extension(subtype: Option<Seq<char>>) -> Seq<char> {
    match subtype {
        Some(sub) => seq!['.'] + sub,
        None => Seq::empty(),
    }
}

/// The suffix for a declared media type: `.` and its subtype where it parses,
/// else nothing.
pub open spec fn spec_mime_extension(mime_type: Option<Seq<char>>) -> Seq<char> {
    match mime_type {
        Some(m) => spec_subtype_extension(spec_mime_subtype(m)),
        None => Seq::empty(),
    }
}

/// The suffix of an attachment of kind `kind`, given the extension found in
/// its file name and the subtype found in its media type.
pub open spec fn spec_resolve_extension(
    kind: MediaKind,
    file_extension: Option<Seq<char>>,
    subtype: Option<Seq<char>>,
) -> Seq<char> {
    match kind {
        MediaKind::Photo => seq!['.', 'j', 'p', 'g'],
        MediaKind::Contact => seq!['.', 'v', 'c', 'f'],
        MediaKind::Document | MediaKind::Sticker => match file_extension {
            Some(ext) => if ext.len() > 0 {
                seq!['.'] + ext
            } else {
                spec_subtype_extension(subtype)
            },
            None => spec_subtype_extension(subtype),
        },
        MediaKind::Other => Seq::empty(),
    }
}

/// The subtype found in the declared media type, if any.
pub open spec fn spec_declared_subtype(mime_type: Option<Seq<char>>) -> Option<Seq<char>> {
    match mime_type {
        Some(m) => spec_mime_subtype(m),
        None => None,
    }
}

/// The suffix that an attachment is stored under.
pub open spec fn spec_file_extension(media: Media) -> Seq<char> {
    spec_resolve_extension(
        media.spec_kind(),
        spec_path_extension(media.spec_name()),
        spec_declared_subtype(media.spec_mime_type()),
    )
}

/// Parses `mime_type` with the `FromStr` impl of `mime::Mime` and hands back
/// `Mime::subtype` of what comes out, as text; `None` where the parser
/// rejects the text. The parser reads the text and nothing else, so the
/// outcome is given a name; nothing more is claimed of it.
#[verifier::external_body]
fn parse_mime_subtype(mime_type: &str) -> (subtype: Option<String>)
    ensures
        view_of(subtype) == spec_mime_subtype(mime_type@),
{
    match mime_type.parse::<mime::Mime>() {
        Ok(parsed) => Some(parsed.subtype().as_str().to_string()),
        Err(_) => None,
    }
}

/// `std::path::Path::extension` of `name` taken as a path: the part of the
/// last path component after its final dot, `None` where that component has
/// no dot or only a leading one. The outcome depends on the text alone and is
/// given a name; nothing more is claimed of it. A `&str` is valid UTF-8, so
/// turning the extension back into text loses nothing.
#[verifier::external_body]
fn path_extension(name: &str) -> (extension: Option<String>)
    ensures
        view_of(extension) == spec_path_extension(name@),
{
    match std::path::Path::new(name).extension() {
        Some(ext) => Some(ext.to_string_lossy().into_owned()),
        None => None,
    }
}

fn subtype_extension(subtype: Option<String>) -> (suffix: String)
    ensures
        suffix@ == spec_subtype_extension(view_of(subtype)),
{
    match subtype {
        Some(sub) => {
            proof {
                reveal_strlit(".");
            }
            let mut suffix = String::from_str(".");
            suffix.append(sub.as_str());
            assert(suffix@ =~= seq!['.'] + sub@);
            suffix
        },
        None => String::new(),
    }
}

/// Picks the suffix of an attachment of kind `kind` from the extension found
/// in its file name and the subtype found in its media type.
pub fn resolve_extension(
    kind: MediaKind,
    file_extension: Option<String>,
    subtype: Option<String>,
) -> (suffix: String)
    ensures
        suffix@ == spec_resolve_extension(kind, view_of(file_extension), view_of(subtype)),
{
    match kind {
        MediaKind::Photo => {
            proof {
                reveal_strlit(".jpg");
            }
            let suffix = String::from_str(".jpg");
            assert(suffix@ =~= seq!['.', 'j', 'p', 'g']);
            suffix
        },
        MediaKind::Contact => {
            proof {
                reveal_strlit(".vcf");
            }
            let suffix = String::from_str(".vcf");
            assert(suffix@ =~= seq!['.', 'v', 'c', 'f']);
            suffix
        },
        MediaKind::Document | MediaKind::Sticker => {
            match file_extension {
                Some(ext) => {
                    if ext.as_str().unicode_len() > 0 {
                        proof {
                            reveal_strlit(".");
                        }
                        let mut suffix = String::from_str(".");
                        suffix.append(ext.as_str());
                        assert(suffix@ =~= seq!['.'] + ext@);
                        suffix
                    } else {
                        subtype_extension(subtype)
                    }
                },
                None => subtype_extension(subtype),
            }
        },
        MediaKind::Other => String::new(),
    }
}

/// The suffix for a declared media type: `.` and its subtype, or nothing
/// where the type is missing or does not parse.
pub fn get_mime_extension(mime_type: Option<&str>) -> (suffix: String)
    ensures
        suffix@ == spec_mime_extension(
            match mime_type {
                Some(m) => Some(m@),
                None => None,
            },
        ),
{
    match mime_type {
        Some(m) => subtype_extension(parse_mime_subtype(m)),
        None => String::new(),
    }
}

/// The suffix that `media` is stored under: `.jpg` for a photo, `.vcf` for a
/// contact, for a document or sticker the extension of its file name or else
/// the subtype of its media type, and nothing for any other kind.
pub fn get_file_extension(media: &Media) -> (suffix: String)
    ensures
        suffix@ == spec_file_extension(*media),
{
    match media {
        Media::Document { name, mime_type } => {
            let subtype = match mime_type {
                Some(m) => parse_mime_subtype(m.as_str()),
                None => None,
            };
            resolve_extension(MediaKind::Document, path_extension(name.as_str()), subtype)
        },
        Media::Sticker { name, mime_type } => {
            let subtype = match mime_type {
                Some(m) => parse_mime_subtype(m.as_str()),
                None => None,
            };
            resolve_extension(MediaKind::Sticker, path_extension(name.as_str()), subtype)
        },
        _ => {
            let no_extension: Option<String> = None;
            let no_subtype: Option<String> = None;
            resolve_extension(media.kind(), no_extension, no_subtype)
        },
    }
}

/// A photo is stored as `.jpg` and a contact as `.vcf`, whatever else is
/// known of them, and an attachment of any kind that is not mirrored gets no
/// suffix at all.
pub proof fn lemma_fixed_extensions(media: Media)
    ensures
        media is Photo ==> spec_file_extension(media) == seq!['.', 'j', 'p', 'g'],
        media is Contact ==> spec_file_extension(media) == seq!['.', 'v', 'c', 'f'],
        media is Other ==> spec_file_extension(media) == Seq::<char>::empty(),
{
}

/// A document or sticker takes the extension of its file name where that is
/// present and not empty, and the subtype of its media type in every other
/// case.
pub proof fn lemma_named_extension_first(media: Media)
    requires
        media is Document || media is Sticker,
    ensures
        match spec_path_extension(media.spec_name()) {
            Some(extension) => if extension.len() > 0 {
                spec_file_extension(media) == seq!['.'] + extension
            } else {
                spec_file_extension(media) == spec_mime_extension(media.spec_mime_type())
            },
            None => spec_file_extension(media) == spec_mime_extension(media.spec_mime_type()),
        },
{
}

} // verus!
