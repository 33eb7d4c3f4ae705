use tg_exporter::media::{
    get_file_extension, get_mime_extension, resolve_extension, Media, MediaKind,
};

fn document(name: &str, mime_type: Option<&str>) -> Media {
    Media::Document { name: name.to_string(), mime_type: mime_type.map(|m| m.to_string()) }
}

fn sticker(name: &str, mime_type: Option<&str>) -> Media {
    Media::Sticker { name: name.to_string(), mime_type: mime_type.map(|m| m.to_string()) }
}

#[test]
fn photo_is_jpg() {
    assert_eq!(get_file_extension(&Media::Photo), ".jpg");
}

#[test]
fn contact_is_vcf() {
    assert_eq!(get_file_extension(&Media::Contact), ".vcf");
}

#[test]
fn other_kind_has_no_extension() {
    assert_eq!(get_file_extension(&Media::Other), "");
    assert!(!Media::Other.is_supported());
}

#[test]
fn mirrored_kinds_are_supported() {
    assert!(Media::Photo.is_supported());
    assert!(Media::Contact.is_supported());
    assert!(document("a.b", None).is_supported());
    assert!(sticker("", None).is_supported());
}

#[test]
fn kinds_are_told_apart() {
    assert_eq!(Media::Photo.kind(), MediaKind::Photo);
    assert_eq!(document("", None).kind(), MediaKind::Document);
    assert_eq!(sticker("", None).kind(), MediaKind::Sticker);
    assert_eq!(Media::Contact.kind(), MediaKind::Contact);
    assert_eq!(Media::Other.kind(), MediaKind::Other);
}

#[test]
fn document_takes_the_extension_of_its_name() {
    assert_eq!(get_file_extension(&document("report.pdf", Some("application/zip"))), ".pdf");
}

#[test]
fn document_name_with_several_dots() {
    assert_eq!(get_file_extension(&document("archive.tar.gz", None)), ".gz");
}

#[test]
fn nameless_document_takes_the_subtype() {
    assert_eq!(get_file_extension(&document("", Some("application/zip"))), ".zip");
}

#[test]
fn document_without_name_and_type_has_no_extension() {
    assert_eq!(get_file_extension(&document("", None)), "");
}

#[test]
fn name_without_extension_falls_back_to_the_subtype() {
    assert_eq!(get_file_extension(&document("README", Some("text/plain"))), ".plain");
    assert_eq!(get_file_extension(&document("README", None)), "");
}

#[test]
fn name_with_empty_extension_falls_back_to_the_subtype() {
    assert_eq!(get_file_extension(&document("notes.", Some("text/plain"))), ".plain");
}

#[test]
fn hidden_file_name_has_no_extension_of_its_own() {
    assert_eq!(get_file_extension(&document(".bashrc", Some("text/x-shellscript"))), ".x-shellscript");
}

#[test]
fn sticker_goes_by_name_then_by_type() {
    assert_eq!(get_file_extension(&sticker("sticker.webp", Some("image/png"))), ".webp");
    assert_eq!(get_file_extension(&sticker("", Some("image/webp"))), ".webp");
    assert_eq!(get_file_extension(&sticker("", Some("application/x-tgsticker"))), ".x-tgsticker");
}

#[test]
fn unparseable_type_gives_nothing() {
    assert_eq!(get_file_extension(&document("", Some("not a type"))), "");
    assert_eq!(get_mime_extension(Some("zip")), "");
    assert_eq!(get_mime_extension(Some("")), "");
    assert_eq!(get_mime_extension(Some("/zip")), "");
}

#[test]
fn mime_extension_is_dot_and_subtype() {
    assert_eq!(get_mime_extension(Some("application/zip")), ".zip");
    assert_eq!(get_mime_extension(Some("video/mp4")), ".mp4");
    assert_eq!(get_mime_extension(None), "");
}

#[test]
fn subtype_ends_at_suffix_and_parameters() {
    assert_eq!(get_mime_extension(Some("image/svg+xml")), ".svg");
    assert_eq!(get_mime_extension(Some("text/plain; charset=utf-8")), ".plain");
}

#[test]
fn subtype_comes_out_in_lower_case() {
    assert_eq!(get_mime_extension(Some("Application/PDF")), ".pdf");
}

#[test]
fn resolve_picks_by_kind() {
    let ext = Some("txt".to_string());
    let sub = Some("plain".to_string());
    assert_eq!(resolve_extension(MediaKind::Photo, ext.clone(), sub.clone()), ".jpg");
    assert_eq!(resolve_extension(MediaKind::Contact, ext.clone(), sub.clone()), ".vcf");
    assert_eq!(resolve_extension(MediaKind::Other, ext.clone(), sub.clone()), "");
    assert_eq!(resolve_extension(MediaKind::Document, ext.clone(), sub.clone()), ".txt");
    assert_eq!(resolve_extension(MediaKind::Sticker, ext, sub), ".txt");
}

#[test]
fn resolve_falls_back_in_order() {
    let sub = Some("plain".to_string());
    assert_eq!(resolve_extension(MediaKind::Document, Some(String::new()), sub.clone()), ".plain");
    assert_eq!(resolve_extension(MediaKind::Document, None, sub), ".plain");
    assert_eq!(resolve_extension(MediaKind::Document, None, None), "");
    assert_eq!(resolve_extension(MediaKind::Sticker, Some(String::new()), None), "");
    assert_eq!(resolve_extension(MediaKind::Document, None, Some(String::new())), ".");
}
