use sfss::filetype::{BinaryType, FileType};
use sfss::upload::{build_from_fields, UploadField};

fn file_field(name: Option<&str>, bytes: &[u8], is_text: bool) -> UploadField {
    UploadField::File {
        name: name.map(|n| n.to_string()),
        bytes: bytes.to_vec(),
        is_text,
    }
}

#[test]
fn attribute_fields_set_the_flags() {
    let fields = vec![
        UploadField::Public,
        UploadField::NoPreview,
        file_field(Some("a.txt"), b"body", true),
    ];
    let built = build_from_fields(&fields);
    assert!(built.flags.public);
    assert!(!built.flags.protected);
    assert!(built.flags.no_preview);
    assert!(built.password.is_none());
    assert_eq!(built.filename, "a.txt");
    assert_eq!(built.buf, b"body".to_vec());
    assert_eq!(built.filetype, FileType::Text);
    assert!(!built.compressed);
    assert!(built.hash.is_empty());
}

#[test]
fn protected_field_generates_a_secret() {
    let fields = vec![UploadField::Protected, file_field(Some("a"), b"x", true)];
    let built = build_from_fields(&fields);
    assert!(built.flags.protected);
    let secret = built.password.unwrap();
    assert_eq!(secret.len(), 8);
    assert!(secret.chars().all(|c| c.is_ascii_alphanumeric()));
}

#[test]
fn first_nonempty_file_wins() {
    let fields = vec![
        file_field(Some("first.txt"), b"first", true),
        file_field(Some("second.txt"), b"second", true),
    ];
    let built = build_from_fields(&fields);
    assert_eq!(built.filename, "first.txt");
    assert_eq!(built.buf, b"first".to_vec());
}

#[test]
fn empty_file_is_displaced_by_the_next() {
    let fields = vec![
        file_field(Some("empty.txt"), b"", true),
        file_field(Some("real.txt"), b"content", true),
    ];
    let built = build_from_fields(&fields);
    assert_eq!(built.filename, "real.txt");
    assert_eq!(built.buf, b"content".to_vec());
}

#[test]
fn named_binary_file_displaces_a_text_file() {
    let fields = vec![
        file_field(Some("note.txt"), b"text body", true),
        file_field(Some("image.png"), b"\x89PNG", false),
    ];
    let built = build_from_fields(&fields);
    assert_eq!(built.filename, "image.png");
    assert_eq!(built.buf, b"\x89PNG".to_vec());
    assert_eq!(built.filetype, FileType::Binary(BinaryType::Previewable));
}

#[test]
fn unnamed_binary_file_also_displaces() {
    let fields = vec![
        file_field(Some("note.txt"), b"text body", true),
        file_field(None, b"\x89PNG", false),
    ];
    let built = build_from_fields(&fields);
    assert_eq!(built.filename, "untitled.txt");
    assert_eq!(built.filetype, FileType::Binary(BinaryType::Previewable));
}

#[test]
fn binary_file_with_empty_name_does_not_displace() {
    let fields = vec![
        file_field(Some("note.txt"), b"text body", true),
        file_field(Some(""), b"\x89PNG", false),
    ];
    let built = build_from_fields(&fields);
    assert_eq!(built.filename, "note.txt");
    assert_eq!(built.buf, b"text body".to_vec());
    assert_eq!(built.filetype, FileType::Text);
}

#[test]
fn language_turns_text_into_code() {
    let fields = vec![
        UploadField::Language(Some(185)),
        file_field(Some("main.rs"), b"fn main() {}", true),
    ];
    let built = build_from_fields(&fields);
    assert_eq!(built.filetype, FileType::Code(185));
}

#[test]
fn language_does_not_touch_binary_files() {
    let fields = vec![
        UploadField::Language(Some(185)),
        file_field(Some("image.png"), b"\x89PNG", false),
    ];
    let built = build_from_fields(&fields);
    assert_eq!(built.filetype, FileType::Binary(BinaryType::Previewable));
}

#[test]
fn later_unresolved_language_clears_an_earlier_one() {
    let fields = vec![
        UploadField::Language(Some(185)),
        UploadField::Language(None),
        file_field(Some("main.rs"), b"fn main() {}", true),
    ];
    let built = build_from_fields(&fields);
    assert_eq!(built.filetype, FileType::Text);
}

#[test]
fn no_file_field_leaves_an_empty_object() {
    let built = build_from_fields(&vec![UploadField::Public]);
    assert_eq!(built.filename, "");
    assert!(built.buf.is_empty());
    assert_eq!(built.filetype, FileType::Text);
}
