//! Building an object out of a produced sequence of form fields.
//!
//! The multipart producer hands the core a sequence of recognized
//! fields. The attribute fields each set one flag; a language field
//! carries what the external language table made of the client's text —
//! the identifier, or nothing when the text matched no language or only
//! the plain-text sentinel; a file field carries a payload. Exactly one
//! file field's bytes become the payload: the first, until a later
//! non-text field with a filename that is not empty displaces it while
//! nothing non-empty has stuck yet.

use crate::filetype::{BinaryType, FileType};
use crate::flags::FileFlags;
use crate::format::{spec_secret_wf, SfssFile};
use vstd::prelude::*;
use vstd::string::StringExecFns;
use vstd::utf8::encode_utf8;

verus! {

/// One recognized field out of the upload form, in the order produced.
pub enum UploadField {
    /// The `public` field was present.
    Public,
    /// The `protected` field was present.
    Protected,
    /// The `no_preview` field was present.
    NoPreview,
    /// A `language` field that the external table resolved: the
    /// identifier, or nothing when resolution came up empty.
    Language(Option<u32>),
    /// A `file` field: its declared name, its bytes, and whether the
    /// producer saw it as text.
    File { name: Option<String>, bytes: Vec<u8>, is_text: bool },
}

/// What the file and language fields seen so far have settled on.
pub struct UploadChoice {
    pub written: bool,
    pub name: Seq<char>,
    pub bytes: Seq<u8>,
    pub text: bool,
    pub langid: Option<u32>,
}

/// Before any field: nothing written, no name, an empty text payload,
/// no language.
pub open spec fn spec_upload_init() -> UploadChoice {
    UploadChoice {
        written: false,
        name: Seq::empty(),
        bytes: Seq::empty(),
        text: true,
        langid: None,
    }
}

/// How one field advances the choice. A file field is accepted while no
/// non-empty payload has stuck, or when it is non-text and its name is
/// not the empty string; acceptance takes its bytes, kind and name, a
/// missing name defaulting. A language field always carries the latest
/// resolution, even an empty one.
pub open spec fn spec_upload_step(c: UploadChoice, field: UploadField) -> UploadChoice {
    match field {
        UploadField::Language(l) => UploadChoice { langid: l, ..c },
        UploadField::File { name, bytes, is_text } => {
            if !c.written || (!is_text && (name matches Some(nm) ==> nm@.len() != 0)) {
                UploadChoice {
                    written: bytes@.len() != 0,
                    name: match name {
                        Some(nm) => nm@,
                        None => "untitled.txt"@,
                    },
                    bytes: bytes@,
                    text: is_text,
                    langid: c.langid,
                }
            } else {
                c
            }
        },
        _ => c,
    }
}

/// The choice after a whole sequence of fields.
pub open spec fn spec_upload_fold(fields: Seq<UploadField>) -> UploadChoice
    decreases fields.len(),
{
    if fields.len() == 0 {
        spec_upload_init()
    } else {
        spec_upload_step(spec_upload_fold(fields.drop_last()), fields.last())
    }
}

/// Whether a `public` field occurs.
pub open spec fn spec_has_public(fields: Seq<UploadField>) -> bool
    decreases fields.len(),
{
    fields.len() != 0 && (fields.last() is Public || spec_has_public(fields.drop_last()))
}

/// Whether a `protected` field occurs.
pub open spec fn spec_has_protected(fields: Seq<UploadField>) -> bool
    decreases fields.len(),
{
    fields.len() != 0 && (fields.last() is Protected || spec_has_protected(fields.drop_last()))
}

/// Whether a `no_preview` field occurs.
pub open spec fn spec_has_no_preview(fields: Seq<UploadField>) -> bool
    decreases fields.len(),
{
    fields.len() != 0 && (fields.last() is NoPreview || spec_has_no_preview(fields.drop_last()))
}

/// A character sequence never encodes to more than four bytes each.
proof fn lemma_encode_utf8_len_bound(s: Seq<char>)
    ensures
        encode_utf8(s).len() <= 4 * s.len(),
    decreases s.len(),
{
    if s.len() == 0 {
    } else {
        lemma_encode_utf8_len_bound(s.drop_first());
        assert(vstd::utf8::encode_scalar(s[0] as u32).len() <= 4);
    }
}

/// The kind the chosen file ends up as: binary files stay previewable
/// binaries; text becomes code exactly when a language stuck.
pub open spec fn spec_chosen_type(c: UploadChoice) -> FileType {
    if c.text {
        match c.langid {
            Some(id) => FileType::Code(id),
            None => FileType::Text,
        }
    } else {
        FileType::Binary(BinaryType::Previewable)
    }
}

/// Builds a fresh object from the produced fields: attribute fields set
/// the flags (a secret being generated the first time `protected`
/// appears), the accepted file field provides name, kind and payload,
/// and the last language resolution turns a text payload into code.
pub fn build_from_fields(fields: &Vec<UploadField>) -> (r: SfssFile)
    requires
        forall|i: int|
            0 <= i < fields@.len() ==> match #[trigger] fields@[i] {
                UploadField::File { name, .. } => match name {
                    Some(nm) => encode_utf8(nm@).len() <= 65535,
                    None => true,
                },
                UploadField::Language(l) => match l {
                    Some(id) => id < 0x1000000,
                    None => true,
                },
                _ => true,
            },
    ensures
        ({
            let c = spec_upload_fold(fields@);
            &&& r.filename@ == c.name
            &&& r.buf@ == c.bytes
            &&& r.filetype == spec_chosen_type(c)
            &&& r.flags == (FileFlags {
                public: spec_has_public(fields@),
                protected: spec_has_protected(fields@),
                no_preview: spec_has_no_preview(fields@),
            })
            &&& r.password is Some <==> spec_has_protected(fields@)
            &&& r.hash@ == Seq::<char>::empty()
            &&& !r.compressed
            &&& r.wf()
        }),
{
    proof {
        assert(fields@.take(0) =~= Seq::<UploadField>::empty());
        assert(encode_utf8(Seq::<char>::empty()) =~= Seq::<u8>::empty());
    }
    let mut file = SfssFile::create(String::new(), false, false, false);
    let mut written: bool = false;
    let mut langid: Option<u32> = None;
    let n = fields.len();
    let mut i: usize = 0;
    while i < n
        invariant
            i <= n,
            n == fields@.len(),
            forall|k: int|
                0 <= k < fields@.len() ==> match #[trigger] fields@[k] {
                    UploadField::File { name, .. } => match name {
                        Some(nm) => encode_utf8(nm@).len() <= 65535,
                        None => true,
                    },
                    UploadField::Language(l) => match l {
                        Some(id) => id < 0x1000000,
                        None => true,
                    },
                    _ => true,
                },
            ({
                let c = spec_upload_fold(fields@.take(i as int));
                &&& written == c.written
                &&& file.filename@ == c.name
                &&& file.buf@ == c.bytes
                &&& file.filetype == (if c.text {
                    FileType::Text
                } else {
                    FileType::Binary(BinaryType::Previewable)
                })
                &&& langid == c.langid
                &&& encode_utf8(c.name).len() <= 65535
                &&& match c.langid {
                    Some(id) => id < 0x1000000,
                    None => true,
                }
            }),
            file.flags == (FileFlags {
                public: spec_has_public(fields@.take(i as int)),
                protected: spec_has_protected(fields@.take(i as int)),
                no_preview: spec_has_no_preview(fields@.take(i as int)),
            }),
            file.password is Some <==> spec_has_protected(fields@.take(i as int)),
            match file.password {
                Some(p) => spec_secret_wf(p@),
                None => true,
            },
            file.hash@ == Seq::<char>::empty(),
            !file.compressed,
        decreases n - i,
    {
        proof {
            assert(fields@.take(i + 1 as int).drop_last() =~= fields@.take(i as int));
            assert(fields@.take(i + 1 as int).last() == fields@[i as int]);
        }
        match &fields[i] {
            UploadField::Public => {
                file.flags.public = true;
            },
            UploadField::Protected => {
                file.flags.protected = true;
                file.set_password();
            },
            UploadField::NoPreview => {
                file.flags.no_preview = true;
            },
            UploadField::Language(l) => {
                langid = *l;
            },
            UploadField::File { name, bytes, is_text } => {
                let name_missing_or_nonempty = match name {
                    Some(nm) => !nm.as_str().is_empty(),
                    None => true,
                };
                if !written || (!*is_text && name_missing_or_nonempty) {
                    file.filetype = if *is_text {
                        FileType::Text
                    } else {
                        FileType::Binary(BinaryType::Previewable)
                    };
                    file.buf = vstd::slice::slice_to_vec(bytes.as_slice());
                    written = file.buf.len() != 0;
                    file.filename = match name {
                        Some(nm) => nm.clone(),
                        None => {
                            let untitled = String::from_str("untitled.txt");
                            proof {
                                reveal_strlit("untitled.txt");
                                lemma_encode_utf8_len_bound(untitled@);
                            }
                            untitled
                        },
                    };
                }
            },
        }
        i = i + 1;
    }
    proof {
        assert(fields@.take(n as int) =~= fields@);
    }
    file.filetype = match langid {
        Some(id) => {
            match file.filetype {
                FileType::Text => FileType::Code(id),
                other => other,
            }
        },
        None => file.filetype,
    };
    file
}

} // verus!
