use flate2::read::ZlibDecoder;
use flate2::write::ZlibEncoder;
use flate2::Compression;
use sfss::format::SfssFile;
use sfss::store::{FinalizeOutcome, SfssStore};
use sfss::SfssError;
use std::io::Read;
use std::io::Write;

#[test]
fn write_and_read_full() {
    let content = "File write and read test".as_bytes().to_vec();
    let filename = "test.txt".to_string();
    let mut store = SfssStore::new();
    let mut input = SfssFile::create(filename.clone(), true, true, false);

    input.append_bytes(&content);
    assert_eq!(input.buf, content);
    input.finalize(&mut store).unwrap();

    let output = SfssFile::new(&store, input.hash.clone(), false).unwrap();

    assert_eq!(input, output);
}

#[test]
fn sfss_format_write_and_read_full() {
    let content = "This is some plain text".as_bytes().to_vec();
    let filename = "test.txt".to_string();
    let mut store = SfssStore::new();
    let mut input = SfssFile::create(filename.clone(), true, true, false);

    input.append_bytes(&content);
    assert_eq!(input.buf, content);
    input.finalize(&mut store).unwrap();

    let output = SfssFile::new(&store, input.hash.clone(), false).unwrap();

    assert_eq!(input, output);
}

#[test]
fn file_compress_decompress() {
    let content = b"File Compression and decompression test";
    let filename = "".to_string();
    let mut store = SfssStore::new();
    let mut input = SfssFile::create(filename.clone(), true, true, false);

    input.append_bytes(content);
    assert_eq!(input.buf, content);
    input.finalize(&mut store).unwrap();

    input.decompress().unwrap();
    assert_eq!(input.buf, content)
}

#[test]
fn compress_and_decompress() {
    let content = "This is some plain text".as_bytes().to_vec();
    let mut e = ZlibEncoder::new(Vec::new(), Compression::default());
    e.write_all(&content).unwrap();
    let compressed = e.finish().unwrap();

    let mut z = ZlibDecoder::new(&compressed[..]);
    let mut b = Vec::new();
    z.read_to_end(&mut b).unwrap();

    assert_eq!(content, b);
}

#[test]
fn compression_changes_and_restores_the_payload() {
    let content = b"some payload that is long enough to matter for the stream";
    let mut file = SfssFile::create("a".to_string(), true, false, false);
    file.append_bytes(content);
    let compressed_size = file.compress().unwrap();
    assert!(file.compressed);
    assert_ne!(file.buf, content.to_vec());
    assert_eq!(compressed_size, file.buf.len() as u64);
    let raw_size = file.decompress().unwrap();
    assert_eq!(raw_size, content.len() as u64);
    assert_eq!(file.buf, content.to_vec());
}

#[test]
fn compress_twice_is_a_state_error() {
    let mut file = SfssFile::create("a".to_string(), true, false, false);
    file.append_bytes(b"x");
    file.compress().unwrap();
    assert_eq!(file.compress(), Err(SfssError::State));
}

#[test]
fn decompress_raw_buffer_is_a_state_error() {
    let mut file = SfssFile::create("a".to_string(), true, false, false);
    file.append_bytes(b"x");
    assert_eq!(file.decompress(), Err(SfssError::State));
}

#[test]
fn read_payload_requires_decompression() {
    let mut file = SfssFile::create("a".to_string(), true, false, false);
    file.append_bytes(b"xyz");
    assert_eq!(file.read_payload().unwrap(), &b"xyz".to_vec());
    file.compress().unwrap();
    assert!(file.read_payload().is_err());
}

#[test]
fn finalize_twice_is_a_state_error() {
    let mut store = SfssStore::new();
    let mut file = SfssFile::create("a".to_string(), true, false, false);
    file.append_bytes(b"payload");
    file.finalize(&mut store).unwrap();
    assert_eq!(file.finalize(&mut store), Err(SfssError::State));
}

#[test]
fn address_is_deterministic_and_content_only() {
    let mut store_one = SfssStore::new();
    let mut store_two = SfssStore::new();
    let mut first = SfssFile::create("one.txt".to_string(), true, false, false);
    let mut second = SfssFile::create("two.bin".to_string(), false, true, true);
    first.append_bytes(b"identical payload");
    second.append_bytes(b"identical payload");
    first.finalize(&mut store_one).unwrap();
    second.finalize(&mut store_two).unwrap();
    assert!(!first.hash.is_empty());
    assert!(first.hash.chars().all(|c| c.is_ascii_alphanumeric()));
    assert_eq!(first.hash, second.hash);

    let mut other = SfssFile::create("one.txt".to_string(), true, false, false);
    other.append_bytes(b"different payload");
    let mut store_three = SfssStore::new();
    other.finalize(&mut store_three).unwrap();
    assert_ne!(first.hash, other.hash);
}

#[test]
fn fetch_missing_address_is_not_found() {
    let store = SfssStore::new();
    assert_eq!(
        SfssFile::new(&store, "nothing".to_string(), false).unwrap_err(),
        SfssError::NotFound
    );
}

#[test]
fn fetch_foreign_bytes_is_a_format_error() {
    let mut store = SfssStore::new();
    store.put("spot".to_string(), b"junk without magic".to_vec());
    assert_eq!(
        SfssFile::new(&store, "spot".to_string(), false).unwrap_err(),
        SfssError::Format
    );
}

#[test]
fn merge_widens_visibility() {
    let mut store = SfssStore::new();
    let mut first = SfssFile::create("a.txt".to_string(), false, false, false);
    first.append_bytes(b"shared payload");
    assert_eq!(first.finalize(&mut store).unwrap(), FinalizeOutcome::Written);

    let mut second = SfssFile::create("b.txt".to_string(), true, false, false);
    second.append_bytes(b"shared payload");
    assert_eq!(second.finalize(&mut store).unwrap(), FinalizeOutcome::Merged);
    assert_eq!(second.hash, first.hash);

    let stored = SfssFile::new(&store, first.hash.clone(), true).unwrap();
    assert!(stored.flags.public);
}

#[test]
fn merge_drops_protection_without_mutual_agreement() {
    let mut store = SfssStore::new();
    let mut first = SfssFile::create("a.txt".to_string(), false, true, false);
    first.append_bytes(b"shared payload");
    first.finalize(&mut store).unwrap();
    assert!(first.password.is_some());

    let mut second = SfssFile::create("b.txt".to_string(), false, false, false);
    second.append_bytes(b"shared payload");
    assert_eq!(second.finalize(&mut store).unwrap(), FinalizeOutcome::Merged);

    let stored = SfssFile::new(&store, first.hash.clone(), true).unwrap();
    assert!(!stored.flags.protected);
    assert!(stored.password.is_none());
}

#[test]
fn merge_keeps_the_first_writers_secret() {
    let mut store = SfssStore::new();
    let mut first = SfssFile::create("a.txt".to_string(), false, true, false);
    first.append_bytes(b"shared payload");
    first.finalize(&mut store).unwrap();
    let first_secret = first.password.clone().unwrap();

    let mut second = SfssFile::create("b.txt".to_string(), false, true, false);
    second.append_bytes(b"shared payload");
    let second_secret = second.password.clone().unwrap();
    assert_eq!(second.finalize(&mut store).unwrap(), FinalizeOutcome::Merged);

    let stored = SfssFile::new(&store, first.hash.clone(), true).unwrap();
    assert!(stored.flags.protected);
    assert_eq!(stored.password, Some(first_secret.clone()));
    if second_secret != first_secret {
        assert_ne!(stored.password, Some(second_secret));
    }
}

#[test]
fn merge_relaxes_no_preview_only_with_agreement() {
    let mut store = SfssStore::new();
    let mut first = SfssFile::create("a.txt".to_string(), false, false, true);
    first.append_bytes(b"shared payload");
    first.finalize(&mut store).unwrap();

    let mut second = SfssFile::create("b.txt".to_string(), false, false, false);
    second.append_bytes(b"shared payload");
    second.finalize(&mut store).unwrap();

    let stored = SfssFile::new(&store, first.hash.clone(), true).unwrap();
    assert!(!stored.flags.no_preview);
}

#[test]
fn collision_with_foreign_file_is_an_integrity_error() {
    let mut probe_store = SfssStore::new();
    let mut probe = SfssFile::create("a.txt".to_string(), true, false, false);
    probe.append_bytes(b"colliding payload");
    probe.finalize(&mut probe_store).unwrap();
    let address = probe.hash.clone();

    let mut store = SfssStore::new();
    let foreign = b"this is not a container".to_vec();
    store.put(address.clone(), foreign.clone());

    let mut upload = SfssFile::create("a.txt".to_string(), true, false, false);
    upload.append_bytes(b"colliding payload");
    assert_eq!(upload.finalize(&mut store), Err(SfssError::Integrity));
    assert_eq!(store.get(&address).unwrap(), &foreign);
}

#[test]
fn merge_rewrites_header_only() {
    let mut store = SfssStore::new();
    let mut first = SfssFile::create("first.txt".to_string(), false, false, false);
    first.append_bytes(b"shared payload");
    first.finalize(&mut store).unwrap();
    let before = store.get(&first.hash).unwrap().clone();
    let first_header = first.header_as_bytes();
    let payload_before = before[first_header.len()..].to_vec();

    let mut second = SfssFile::create("second name.txt".to_string(), true, false, false);
    second.append_bytes(b"shared payload");
    second.finalize(&mut store).unwrap();
    let after = store.get(&first.hash).unwrap().clone();
    let second_header = second.header_as_bytes();
    let payload_after = after[second_header.len()..].to_vec();
    assert_eq!(payload_before, payload_after);
    assert_eq!(&after[..second_header.len()], &second_header[..]);
}

#[test]
fn open_rereads_the_stored_object() {
    let mut store = SfssStore::new();
    let mut input = SfssFile::create("doc.txt".to_string(), true, false, false);
    input.append_bytes(b"the document body");
    input.finalize(&mut store).unwrap();

    let mut reopened = SfssFile::new(&store, input.hash.clone(), true).unwrap();
    assert!(reopened.buf.is_empty());
    reopened.open(&store).unwrap();
    assert!(reopened.compressed);
    reopened.decompress().unwrap();
    assert_eq!(reopened.buf, b"the document body".to_vec());
}

#[test]
fn upload_scenario_hello() {
    let mut store = SfssStore::new();
    let mut upload = SfssFile::create("a.txt".to_string(), true, false, false);
    upload.append_bytes(b"hello");
    upload.finalize(&mut store).unwrap();

    let header = upload.header_as_bytes();
    assert_eq!(&header[0..6], &[53, 46, 53, 53, 253, 254]);
    assert_eq!(&header[6..8], &[5, 0]);
    assert_eq!(&header[8..13], b"a.txt");
    assert_eq!(&header[13..17], &[0, 0, 0, 0]);
    assert_eq!(&header[17..25], &[0; 8]);
    assert_eq!(header[25], 0x80);
    assert_eq!(header.len(), 26);

    let first_address = upload.hash.clone();

    let mut again = SfssFile::create("b.txt".to_string(), false, true, false);
    again.append_bytes(b"hello");
    assert_eq!(again.finalize(&mut store).unwrap(), FinalizeOutcome::Merged);
    assert_eq!(again.hash, first_address);

    let stored = SfssFile::new(&store, first_address, true).unwrap();
    assert!(stored.flags.public);
    assert!(!stored.flags.protected);
    assert!(stored.password.is_none());
}
