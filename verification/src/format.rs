//! The container: one stored object, its fixed-layout header, and the
//! transforms an object goes through between upload and serving.
//!
//! On disk a container is
//!
//! ```text
//! offset  size  field
//! 0       6     magic constant
//! 6       2     name length N, little endian
//! 8       N     name bytes, UTF-8
//! 8+N     4     type tag
//! 12+N    8     secret, all zero when absent
//! 20+N    1     flags byte
//! 21+N    ...   payload, compressed
//! ```
//!
//! Decoding enforces only the magic as a hard gate; every other oddity
//! degrades to a safe default so that partially corrupt metadata never
//! prevents a response.

use crate::filetype::{spec_type_bytes, spec_type_of_bytes, spec_type_wf, BinaryType, FileType};
use crate::flags::{spec_flags_byte, spec_flags_of_byte, FileFlags};
use crate::trusted::{
    base62_of, base62_encode, deflate_of, generate_secret, inflate_of, is_secret_char,
    string_from_utf8, xxh3_64, xxh3_64_of, zlib_compress, zlib_decompress,
};
use crate::SfssError;
use vstd::bytes::{
    lemma_auto_spec_u16_to_from_le_bytes, spec_u16_from_le_bytes, spec_u16_to_le_bytes,
    u16_from_le_bytes, u16_to_le_bytes,
};
use vstd::prelude::*;
use vstd::utf8::{decode_utf8, encode_utf8, is_ascii_chars, valid_utf8};

verus! {

/// The magic constant that opens every container: a file that does not
/// begin with these six bytes is not one of ours.
pub open spec fn spec_magic() -> Seq<u8> {
    seq![53u8, 46u8, 53u8, 53u8, 253u8, 254u8]
}

/// The eight zero bytes that stand for "no secret".
pub open spec fn spec_zero_secret() -> Seq<u8> {
    seq![0u8, 0u8, 0u8, 0u8, 0u8, 0u8, 0u8, 0u8]
}

/// A secret the format can carry: exactly eight bytes of UTF-8, not all
/// of them zero.
pub open spec fn spec_secret_wf(p: Seq<char>) -> bool {
    encode_utf8(p).len() == 8 && encode_utf8(p) != spec_zero_secret()
}

/// The eight secret bytes of the header: the secret's UTF-8, or all
/// zeros when there is none.
pub open spec fn spec_secret_bytes(p: Option<Seq<char>>) -> Seq<u8> {
    match p {
        Some(s) => encode_utf8(s),
        None => spec_zero_secret(),
    }
}

/// One stored object. `buf` holds the payload either raw or compressed;
/// `compressed` says which reading is current. `hash` is empty until the
/// object has been finalized, and is then its address: the base-62
/// content hash that doubles as the storage key.
#[derive(Debug)]
pub struct SfssFile {
    pub filename: String,
    pub hash: String,
    pub filetype: FileType,
    pub flags: FileFlags,
    pub password: Option<String>,
    pub compressed: bool,
    pub buf: Vec<u8>,
}

impl vstd::std_specs::cmp::PartialEqSpecImpl for SfssFile {
    open spec fn obeys_eq_spec() -> bool {
        true
    }

    open spec fn eq_spec(&self, other: &Self) -> bool {
        &&& self.filename@ == other.filename@
        &&& self.hash@ == other.hash@
        &&& self.filetype == other.filetype
        &&& self.flags == other.flags
        &&& spec_password_view(self.password) == spec_password_view(other.password)
        &&& self.compressed == other.compressed
        &&& self.buf@ == other.buf@
    }
}

impl PartialEq for SfssFile {
    /// Two objects are equal when every field carries the same value.
    fn eq(&self, other: &Self) -> (r: bool) {
        let buf_eq = eq_bytes(&self.buf, &other.buf);
        let password_eq = match (&self.password, &other.password) {
            (None, None) => true,
            (Some(a), Some(b)) => *a == *b,
            _ => false,
        };
        self.filename == other.filename && self.hash == other.hash && self.filetype
            == other.filetype && self.flags == other.flags && password_eq && self.compressed
            == other.compressed && buf_eq
    }
}

impl Eq for SfssFile {

}

/// Whether two byte buffers hold the same bytes.
fn eq_bytes(a: &Vec<u8>, b: &Vec<u8>) -> (r: bool)
    ensures
        r == (a@ == b@),
{
    if a.len() != b.len() {
        return false;
    }
    let mut i: usize = 0;
    while i < a.len()
        invariant
            i <= a.len(),
            a@.len() == b@.len(),
            forall|j: int| 0 <= j < i ==> a@[j] == b@[j],
        decreases a.len() - i,
    {
        if a[i] != b[i] {
            return false;
        }
        i = i + 1;
    }
    proof {
        assert(a@ =~= b@);
    }
    true
}

/// The view of an optional secret: the character sequence, if any.
pub open spec fn spec_password_view(p: Option<String>) -> Option<Seq<char>> {
    match p {
        Some(s) => Some(s@),
        None => None,
    }
}

impl SfssFile {
    /// What every object must satisfy for the header to be encodable:
    /// the name fits the two-byte length field, the language identifier
    /// fits its 24 bits, and a secret, when present, fills its eight
    /// bytes without being mistaken for "none".
    pub open spec fn wf(&self) -> bool {
        &&& encode_utf8(self.filename@).len() <= 65535
        &&& spec_type_wf(self.filetype)
        &&& match self.password {
            Some(p) => spec_secret_wf(p@),
            None => true,
        }
    }

    /// True exactly when the six bytes are the container magic.
    pub fn verify_magic(bytes: [u8; 6]) -> (r: bool)
        ensures
            r == (bytes@ =~= spec_magic()),
    {
        let r = bytes[0] == 53 && bytes[1] == 46 && bytes[2] == 53 && bytes[3] == 53 && bytes[4]
            == 253 && bytes[5] == 254;
        proof {
            if r {
                assert(bytes@ =~= spec_magic());
            }
        }
        r
    }
}

/// The header bytes of an object, exactly as they are written.
pub open spec fn spec_header_bytes(f: SfssFile) -> Seq<u8>
    recommends
        f.wf(),
{
    spec_magic() + spec_u16_to_le_bytes(encode_utf8(f.filename@).len() as u16) + encode_utf8(
        f.filename@,
    ) + spec_type_bytes(f.filetype) + spec_secret_bytes(spec_password_view(f.password)) + seq![
        spec_flags_byte(f.flags),
    ]
}

impl SfssFile {
    /// Serializes the header: magic, name length, name, type tag,
    /// secret, flags, in that order and nothing else.
    pub fn header_as_bytes(&self) -> (r: Vec<u8>)
        requires
            self.wf(),
        ensures
            r@ == spec_header_bytes(*self),
    {
        let mut buf: Vec<u8> = Vec::new();
        buf.push(53);
        buf.push(46);
        buf.push(53);
        buf.push(53);
        buf.push(253);
        buf.push(254);
        assert(buf@ =~= spec_magic());
        let name_bytes = self.filename.as_str().as_bytes_vec();
        proof {
            lemma_auto_spec_u16_to_from_le_bytes();
        }
        let mut len_bytes = u16_to_le_bytes(name_bytes.len() as u16);
        buf.append(&mut len_bytes);
        buf.extend_from_slice(name_bytes.as_slice());
        let tag = self.filetype.as_bytes();
        buf.extend_from_slice(tag.as_slice());
        match &self.password {
            Some(p) => {
                let secret_bytes = p.as_str().as_bytes_vec();
                buf.extend_from_slice(secret_bytes.as_slice());
            },
            None => {
                let mut i: usize = 0;
                while i < 8
                    invariant
                        i <= 8,
                        buf@ == spec_magic() + spec_u16_to_le_bytes(
                            encode_utf8(self.filename@).len() as u16,
                        ) + encode_utf8(self.filename@) + spec_type_bytes(self.filetype)
                            + spec_zero_secret().subrange(0, i as int),
                    decreases 8 - i,
                {
                    buf.push(0);
                    proof {
                        assert(spec_zero_secret().subrange(0, i + 1 as int) =~= spec_zero_secret()
                            .subrange(0, i as int) + seq![0u8]);
                    }
                    i = i + 1;
                }
                proof {
                    assert(spec_zero_secret().subrange(0, 8) =~= spec_zero_secret());
                }
            },
        }
        buf.push(self.flags.to_byte());
        proof {
            assert(buf@ =~= spec_header_bytes(*self));
        }
        buf
    }
}

/// What a well-formed header says, together with how many bytes it took.
pub struct HeaderView {
    pub filename: Seq<char>,
    pub filetype: FileType,
    pub password: Option<Seq<char>>,
    pub flags: FileFlags,
    pub len: int,
}

/// Decodes a header from the front of the given bytes.
///
/// Fails only on a short buffer or a wrong magic. A name that is not
/// UTF-8 degrades to the empty name; a secret field that is neither all
/// zero nor UTF-8 degrades to no secret; unknown type tags and reserved
/// flag bits are absorbed by their codecs.
pub open spec fn spec_parse_header(b: Seq<u8>) -> Option<HeaderView> {
    if b.len() < 8 || b.subrange(0, 6) != spec_magic() {
        None
    } else {
        let nlen = spec_u16_from_le_bytes(b.subrange(6, 8)) as int;
        if b.len() < 21 + nlen {
            None
        } else {
            let name_bytes = b.subrange(8, 8 + nlen);
            let secret = b.subrange(12 + nlen, 20 + nlen);
            Some(
                HeaderView {
                    filename: if valid_utf8(name_bytes) {
                        decode_utf8(name_bytes)
                    } else {
                        Seq::empty()
                    },
                    filetype: spec_type_of_bytes(b.subrange(8 + nlen, 12 + nlen)),
                    password: if secret == spec_zero_secret() {
                        None
                    } else if valid_utf8(secret) {
                        Some(decode_utf8(secret))
                    } else {
                        None
                    },
                    flags: spec_flags_of_byte(b[20 + nlen]),
                    len: 21 + nlen,
                },
            )
        }
    }
}

impl SfssFile {
    /// Reads the header at the front of `bytes` into this object,
    /// leaving the payload buffer and the address alone. Returns how
    /// many bytes the header took.
    pub fn header_from_bytes(&mut self, bytes: &[u8]) -> (r: Result<usize, SfssError>)
        ensures
            match r {
                Ok(n) => {
                    &&& spec_parse_header(bytes@) matches Some(h)
                    &&& final(self).filename@ == h.filename
                    &&& final(self).filetype == h.filetype
                    &&& spec_password_view(final(self).password) == h.password
                    &&& final(self).flags == h.flags
                    &&& n as int == h.len
                    &&& final(self).wf()
                },
                Err(e) => {
                    &&& e == SfssError::Format
                    &&& spec_parse_header(bytes@) is None
                    &&& *final(self) == *old(self)
                },
            },
            final(self).hash == old(self).hash,
            final(self).buf == old(self).buf,
            final(self).compressed == old(self).compressed,
    {
        if bytes.len() < 8 {
            return Err(SfssError::Format);
        }
        let magic = [bytes[0], bytes[1], bytes[2], bytes[3], bytes[4], bytes[5]];
        proof {
            assert(magic@ =~= bytes@.subrange(0, 6));
        }
        if !Self::verify_magic(magic) {
            return Err(SfssError::Format);
        }
        proof {
            lemma_auto_spec_u16_to_from_le_bytes();
        }
        let nlen = u16_from_le_bytes(vstd::slice::slice_subrange(bytes, 6, 8)) as usize;
        if bytes.len() < 21 + nlen {
            return Err(SfssError::Format);
        }
        let ghost h = spec_parse_header(bytes@).unwrap();

        let name_vec = vstd::slice::slice_to_vec(vstd::slice::slice_subrange(bytes, 8, 8 + nlen));
        self.filename = match string_from_utf8(name_vec) {
            Some(s) => s,
            None => String::new(),
        };

        let tag = [bytes[8 + nlen], bytes[9 + nlen], bytes[10 + nlen], bytes[11 + nlen]];
        proof {
            assert(tag@ =~= bytes@.subrange(8 + nlen as int, 12 + nlen as int));
        }
        self.filetype = FileType::from_bytes(tag);

        let secret_vec = vstd::slice::slice_to_vec(
            vstd::slice::slice_subrange(bytes, 12 + nlen, 20 + nlen),
        );
        let all_zero = secret_vec[0] == 0 && secret_vec[1] == 0 && secret_vec[2] == 0
            && secret_vec[3] == 0 && secret_vec[4] == 0 && secret_vec[5] == 0 && secret_vec[6] == 0
            && secret_vec[7] == 0;
        proof {
            if all_zero {
                assert(secret_vec@ =~= spec_zero_secret());
            } else {
                assert(secret_vec@ != spec_zero_secret());
            }
        }
        self.password = if all_zero {
            None
        } else {
            string_from_utf8(secret_vec)
        };

        self.flags = FileFlags::from_byte(bytes[20 + nlen]);

        proof {
            if self.password is Some {
                vstd::utf8::decode_utf8_encode_utf8(bytes@.subrange(
                    12 + nlen as int,
                    20 + nlen as int,
                ));
            }
            if valid_utf8(bytes@.subrange(8, 8 + nlen as int)) {
                vstd::utf8::decode_utf8_encode_utf8(bytes@.subrange(8, 8 + nlen as int));
            }
        }
        Ok(21 + nlen)
    }
}

/// True when the two objects agree on everything but the payload buffer
/// and its compression state.
pub open spec fn same_meta(a: SfssFile, b: SfssFile) -> bool {
    &&& a.filename == b.filename
    &&& a.hash == b.hash
    &&& a.filetype == b.filetype
    &&& a.flags == b.flags
    &&& a.password == b.password
}

/// The address of a payload: base-62 over the little-endian bytes of its
/// 64-bit content hash. A function of the payload bytes alone.
pub open spec fn spec_address(payload: Seq<u8>) -> Seq<char> {
    base62_of(vstd::bytes::spec_u64_to_le_bytes(xxh3_64_of(payload)))
}

/// Eight characters out of the secret generator make a well-formed
/// secret: one byte each, the first of them not zero.
proof fn lemma_secret_chars_wf(p: Seq<char>)
    requires
        p.len() == 8,
        forall|i: int| 0 <= i < 8 ==> is_secret_char(#[trigger] p[i]),
    ensures
        spec_secret_wf(p),
{
    assert(is_ascii_chars(p)) by {
        assert forall|i: int| 0 <= i < p.len() implies '\0' <= #[trigger] p[i] <= '\u{7f}' by {
            assert(is_secret_char(p[i]));
        }
    }
    vstd::utf8::is_ascii_chars_encode_utf8(p);
    assert(encode_utf8(p)[0] == p[0] as u8);
    assert(p[0] as u8 != 0) by {
        assert(is_secret_char(p[0]));
    }
    assert(encode_utf8(p) != spec_zero_secret()) by {
        assert(encode_utf8(p)[0] != spec_zero_secret()[0]);
    }
}

impl Default for SfssFile {
    /// A blank, unwritten object: no name, no address, plain text,
    /// default attributes, no secret, an empty uncompressed buffer.
    fn default() -> (r: Self)
        ensures
            r.filename@ == Seq::<char>::empty(),
            r.hash@ == Seq::<char>::empty(),
            r.filetype == FileType::Text,
            r.flags == (FileFlags { public: true, protected: false, no_preview: false }),
            r.password is None,
            !r.compressed,
            r.buf@ == Seq::<u8>::empty(),
            r.wf(),
    {
        let r = SfssFile {
            filename: String::new(),
            hash: String::new(),
            filetype: FileType::Text,
            flags: FileFlags { public: true, protected: false, no_preview: false },
            password: None,
            compressed: false,
            buf: Vec::new(),
        };
        proof {
            assert(encode_utf8(Seq::<char>::empty()) =~= Seq::<u8>::empty());
        }
        r
    }
}

impl SfssFile {
    /// A fresh object being built: named, flagged, empty, unaddressed.
    /// A secret is generated right away when the object is protected.
    pub fn create(filename: String, public: bool, protected: bool, no_preview: bool) -> (r: Self)
        requires
            encode_utf8(filename@).len() <= 65535,
        ensures
            r.filename == filename,
            r.hash@ == Seq::<char>::empty(),
            r.filetype == FileType::Text,
            r.flags == (FileFlags { public, protected, no_preview }),
            r.password is Some <==> protected,
            !r.compressed,
            r.buf@ == Seq::<u8>::empty(),
            r.wf(),
    {
        let password = if protected {
            let s = generate_secret();
            proof {
                lemma_secret_chars_wf(s@);
            }
            Some(s)
        } else {
            None
        };
        SfssFile {
            filename,
            hash: String::new(),
            filetype: FileType::Text,
            flags: FileFlags { public, protected, no_preview },
            password,
            compressed: false,
            buf: Vec::new(),
        }
    }

    /// Generates a secret if the object has none yet; reports whether one
    /// was generated.
    pub fn set_password(&mut self) -> (r: bool)
        ensures
            r == (old(self).password is None),
            final(self).password is Some,
            old(self).password is Some ==> *final(self) == *old(self),
            old(self).password is None ==> match final(self).password {
                Some(p) => spec_secret_wf(p@),
                None => false,
            },
            final(self).filename == old(self).filename,
            final(self).hash == old(self).hash,
            final(self).filetype == old(self).filetype,
            final(self).flags == old(self).flags,
            final(self).buf == old(self).buf,
            final(self).compressed == old(self).compressed,
    {
        match &self.password {
            Some(_) => false,
            None => {
                let s = generate_secret();
                proof {
                    lemma_secret_chars_wf(s@);
                }
                self.password = Some(s);
                true
            },
        }
    }

    /// Appends payload bytes to an object under construction.
    pub fn append_bytes(&mut self, data: &[u8])
        ensures
            final(self).buf@ == old(self).buf@ + data@,
            final(self).compressed == old(self).compressed,
            same_meta(*final(self), *old(self)),
    {
        self.buf.extend_from_slice(data);
    }

    /// Compresses the payload in place, once: asking again is a caller
    /// error, reported and without effect. Reports the compressed size.
    pub fn compress(&mut self) -> (r: Result<u64, SfssError>)
        ensures
            old(self).compressed ==> r == Err::<u64, SfssError>(SfssError::State) && *final(self)
                == *old(self),
            !old(self).compressed ==> {
                &&& r matches Ok(n)
                &&& final(self).compressed
                &&& final(self).buf@ == deflate_of(old(self).buf@)
                &&& inflate_of(final(self).buf@) == Some(old(self).buf@)
                &&& n == final(self).buf@.len()
                &&& same_meta(*final(self), *old(self))
            },
    {
        if self.compressed {
            return Err(SfssError::State);
        }
        let compressed = zlib_compress(&self.buf);
        let size = compressed.len() as u64;
        self.buf = compressed;
        self.compressed = true;
        Ok(size)
    }

    /// Undoes the compression, once: asking on a raw buffer is a caller
    /// error, reported and without effect. A compressed buffer that is
    /// not a well-formed stream is corrupt and reported as such, with the
    /// object unchanged. Reports the decompressed size.
    pub fn decompress(&mut self) -> (r: Result<u64, SfssError>)
        ensures
            !old(self).compressed ==> r == Err::<u64, SfssError>(SfssError::State) && *final(self)
                == *old(self),
            old(self).compressed ==> match inflate_of(old(self).buf@) {
                Some(v) => {
                    &&& r matches Ok(n)
                    &&& !final(self).compressed
                    &&& final(self).buf@ == v
                    &&& n == v.len()
                    &&& same_meta(*final(self), *old(self))
                },
                None => r == Err::<u64, SfssError>(SfssError::Format) && *final(self) == *old(
                    self,
                ),
            },
    {
        if !self.compressed {
            return Err(SfssError::State);
        }
        match zlib_decompress(&self.buf) {
            Some(raw) => {
                let size = raw.len() as u64;
                self.buf = raw;
                self.compressed = false;
                Ok(size)
            },
            None => Err(SfssError::Format),
        }
    }

    /// The address of the given payload bytes. Never empty.
    pub fn compute_address(payload: &Vec<u8>) -> (r: String)
        ensures
            r@ == spec_address(payload@),
            r@.len() > 0,
    {
        proof {
            vstd::bytes::lemma_auto_spec_u64_to_from_le_bytes();
        }
        let h = xxh3_64(payload);
        let bytes = vstd::bytes::u64_to_le_bytes(h);
        base62_encode(&bytes)
    }

    /// The whole container: header bytes followed by the payload buffer
    /// exactly as it currently stands.
    pub fn container_bytes(&self) -> (r: Vec<u8>)
        requires
            self.wf(),
        ensures
            r@ == spec_header_bytes(*self) + self.buf@,
    {
        let mut r = self.header_as_bytes();
        r.extend_from_slice(self.buf.as_slice());
        r
    }

    /// The payload as readable bytes. Reading a still-compressed buffer
    /// is a caller error: decompress first.
    pub fn read_payload(&self) -> (r: Result<&Vec<u8>, SfssError>)
        ensures
            match r {
                Ok(v) => !self.compressed && v@ == self.buf@,
                Err(e) => self.compressed && e == SfssError::State,
            },
    {
        if self.compressed {
            Err(SfssError::State)
        } else {
            Ok(&self.buf)
        }
    }

    /// Whether a presented password opens this object: an unprotected
    /// object opens for everyone; a protected one only for the exact
    /// secret.
    pub fn password_matches(&self, given: &Option<String>) -> (r: bool)
        ensures
            r == match spec_password_view(self.password) {
                None => true,
                Some(p) => spec_password_view(*given) == Some(p),
            },
    {
        match (&self.password, given) {
            (None, _) => true,
            (Some(p), Some(g)) => *p == *g,
            (Some(_), None) => false,
        }
    }
}

/// The attributes a dedup merge leaves behind: visibility widens to
/// either side's, protection and preview suppression hold only where
/// both sides agree.
pub open spec fn spec_merged_flags(existing: FileFlags, incoming: FileFlags) -> FileFlags {
    FileFlags {
        public: existing.public || incoming.public,
        protected: existing.protected && incoming.protected,
        no_preview: existing.no_preview && incoming.no_preview,
    }
}

/// The secret a dedup merge leaves behind: the first writer's, and only
/// while both sides stay protected.
pub open spec fn spec_merged_password(
    existing_password: Option<Seq<char>>,
    existing: FileFlags,
    incoming: FileFlags,
) -> Option<Seq<char>> {
    if existing.protected && incoming.protected {
        existing_password
    } else {
        None
    }
}

impl SfssFile {
    /// Reconciles this object's header with the object already stored at
    /// the same address: flags and secret are merged field by field, the
    /// payload is left alone. The addresses already agree, both being
    /// derived from the same payload hash.
    pub fn merge_with_existing(&mut self, existing: &SfssFile)
        ensures
            final(self).flags == spec_merged_flags(existing.flags, old(self).flags),
            spec_password_view(final(self).password) == spec_merged_password(
                spec_password_view(existing.password),
                existing.flags,
                old(self).flags,
            ),
            final(self).flags.protected ==> final(self).password == existing.password,
            final(self).filename == old(self).filename,
            final(self).hash == old(self).hash,
            final(self).filetype == old(self).filetype,
            final(self).buf == old(self).buf,
            final(self).compressed == old(self).compressed,
    {
        self.flags.public = self.flags.public || existing.flags.public;
        if !(existing.flags.protected && self.flags.protected) {
            self.flags.protected = false;
            self.password = None;
        } else {
            self.password = match &existing.password {
                Some(p) => Some(p.clone()),
                None => None,
            };
        }
        self.flags.no_preview = self.flags.no_preview && existing.flags.no_preview;
    }
}

/// Law: a merge only ever widens visibility. An upload marked public
/// makes the stored object public, whichever side asked.
pub proof fn lemma_merge_visibility_widens(existing: FileFlags, incoming: FileFlags)
    ensures
        spec_merged_flags(existing, incoming).public == (existing.public || incoming.public),
{
}

/// Law: protection needs mutual agreement. When either side of a merge
/// is unprotected, the merged object is unprotected and keeps no secret,
/// even though the other side had one.
pub proof fn lemma_merge_protection_mutual(
    existing_password: Option<Seq<char>>,
    existing: FileFlags,
    incoming: FileFlags,
)
    requires
        !existing.protected || !incoming.protected,
    ensures
        !spec_merged_flags(existing, incoming).protected,
        spec_merged_password(existing_password, existing, incoming) is None,
{
}

/// Law: the first writer's secret wins. When both sides of a merge are
/// protected, the merged secret is the existing object's, whatever
/// secret the new upload generated.
pub proof fn lemma_merge_secret_stability(
    existing_password: Option<Seq<char>>,
    existing: FileFlags,
    incoming: FileFlags,
)
    requires
        existing.protected,
        incoming.protected,
    ensures
        spec_merged_password(existing_password, existing, incoming) == existing_password,
{
}

/// Law: the address is a function of the payload bytes alone. Two
/// objects holding identical payloads get identical addresses, whatever
/// their names, kinds, flags or secrets.
pub proof fn lemma_address_deterministic(a: SfssFile, b: SfssFile)
    requires
        a.buf@ == b.buf@,
    ensures
        spec_address(a.buf@) == spec_address(b.buf@),
{
}

/// Law: the header codec round-trips. Any well-formed object's header,
/// with any payload behind it, parses back to exactly the object's name,
/// kind, secret and flags, consuming exactly the header's bytes.
pub proof fn lemma_header_round_trip(f: SfssFile, rest: Seq<u8>)
    requires
        f.wf(),
    ensures
        spec_parse_header(spec_header_bytes(f) + rest) matches Some(h)
            && h.filename == f.filename@
            && h.filetype == f.filetype
            && h.password == spec_password_view(f.password)
            && h.flags == f.flags
            && h.len == spec_header_bytes(f).len(),
{
    let name = encode_utf8(f.filename@);
    let n = name.len() as int;
    let b = spec_header_bytes(f) + rest;
    lemma_auto_spec_u16_to_from_le_bytes();
    assert(spec_type_bytes(f.filetype).len() == 4) by {
        match f.filetype {
            FileType::Text => {},
            FileType::Binary(_) => {},
            FileType::Code(_) => {},
        }
    }
    assert(spec_secret_bytes(spec_password_view(f.password)).len() == 8);
    assert(spec_header_bytes(f).len() == 21 + n);
    assert(b.subrange(0, 6) =~= spec_magic());
    assert(b.subrange(6, 8) =~= spec_u16_to_le_bytes(n as u16));
    assert(spec_u16_from_le_bytes(b.subrange(6, 8)) == n);
    assert(b.len() >= 21 + n);
    assert(b.subrange(8, 8 + n) =~= name);
    vstd::utf8::encode_utf8_valid_utf8(f.filename@);
    vstd::utf8::encode_utf8_decode_utf8(f.filename@);
    assert(b.subrange(8 + n, 12 + n) =~= spec_type_bytes(f.filetype));
    crate::filetype::lemma_type_bytes_round_trip(f.filetype);
    assert(b.subrange(12 + n, 20 + n) =~= spec_secret_bytes(spec_password_view(f.password)));
    match f.password {
        Some(p) => {
            vstd::utf8::encode_utf8_valid_utf8(p@);
            vstd::utf8::encode_utf8_decode_utf8(p@);
        },
        None => {},
    }
    assert(b[20 + n] == spec_flags_byte(f.flags));
    assert(0u8 & 0xe0 == 0) by (bit_vector);
    crate::flags::lemma_flags_byte_round_trip(f.flags, 0);
}

/// What the response layer should present the payload as.
#[derive(Debug, Clone, Copy, PartialEq, Eq, Structural)]
pub enum ContentTypeHint {
    /// Plain text, served as is.
    Plain,
    /// An HTML page: highlighted code.
    Html,
    /// Whatever the filename's extension suggests.
    ByExtension,
    /// An opaque binary stream.
    Binary,
}

/// How the response layer should ask the client to handle the payload.
#[derive(Debug, Clone, Copy, PartialEq, Eq, Structural)]
pub enum Disposition {
    Inline,
    Attachment,
}

/// The content-type hint for a content kind.
pub open spec fn spec_content_type_hint(t: FileType) -> ContentTypeHint {
    match t {
        FileType::Text => ContentTypeHint::Plain,
        FileType::Code(_) => ContentTypeHint::Html,
        FileType::Binary(BinaryType::Previewable) => ContentTypeHint::ByExtension,
        FileType::Binary(BinaryType::NonPreviewable) => ContentTypeHint::Binary,
    }
}

impl SfssFile {
    /// How the payload should be typed when served.
    pub fn content_type_hint(&self) -> (r: ContentTypeHint)
        ensures
            r == spec_content_type_hint(self.filetype),
    {
        match self.filetype {
            FileType::Text => ContentTypeHint::Plain,
            FileType::Code(_) => ContentTypeHint::Html,
            FileType::Binary(BinaryType::Previewable) => ContentTypeHint::ByExtension,
            FileType::Binary(BinaryType::NonPreviewable) => ContentTypeHint::Binary,
        }
    }

    /// Whether the payload should be shown inline or downloaded.
    pub fn disposition(&self) -> (r: Disposition)
        ensures
            r == if self.flags.no_preview {
                Disposition::Attachment
            } else {
                Disposition::Inline
            },
    {
        if self.flags.no_preview {
            Disposition::Attachment
        } else {
            Disposition::Inline
        }
    }
}

} // verus!
