use std::io::Read;

use qr_sign::batch::{batch_sign_archive, batch_sign_document, batch_sign_entries, entry_name};
use qr_sign::crypto::{generate_keypair, sign};
use qr_sign::qr::encode_data;
use qr_sign::wire::encode_signed_message;
use qr_sign::CoreError;

#[test]
fn entry_names_are_one_based_and_decimal() {
    assert_eq!(entry_name(1), "signed_1.svg");
    assert_eq!(entry_name(3), "signed_3.svg");
    assert_eq!(entry_name(10), "signed_10.svg");
    assert_eq!(entry_name(1234), "signed_1234.svg");
}

#[test]
fn batch_entries_follow_input_order() {
    let (_public_key, private_key) = generate_keypair().expect("key generation");
    let lines = vec![b"a".to_vec(), b"b".to_vec(), b"c".to_vec()];
    let entries = batch_sign_entries(&private_key, &lines).expect("batch");
    assert_eq!(entries.len(), 3);
    for (idx, line) in lines.iter().enumerate() {
        let entry = &entries[idx];
        assert_eq!(entry.name, format!("signed_{}.svg", idx + 1));
        // deterministic signing lets the expected image be recomputed
        let signature = sign(&private_key, line).expect("signing");
        let payload = encode_signed_message(&signature, line);
        let expected_svg = encode_data(&payload).expect("render");
        assert_eq!(entry.svg, expected_svg);
    }
}

#[test]
fn archive_holds_the_entries_in_order() {
    let (_public_key, private_key) = generate_keypair().expect("key generation");
    let lines = vec![b"first".to_vec(), b"second".to_vec(), b"third".to_vec()];
    let entries = batch_sign_entries(&private_key, &lines).expect("batch");
    let archive_bytes = batch_sign_archive(&private_key, &lines).expect("archive");

    let cursor = std::io::Cursor::new(archive_bytes);
    let mut archive = zip::ZipArchive::new(cursor).expect("readable zip");
    assert_eq!(archive.len(), 3);
    for idx in 0..3 {
        let mut file = archive.by_index(idx).expect("entry");
        assert_eq!(file.name(), format!("signed_{}.svg", idx + 1));
        let mut content = String::new();
        file.read_to_string(&mut content).expect("entry content");
        assert_eq!(content, entries[idx].svg);
    }
}

#[test]
fn document_is_split_on_line_endings() {
    let (_public_key, private_key) = generate_keypair().expect("key generation");
    let document = b"alpha\nbeta\r\ngamma\n".to_vec();
    let archive_bytes = batch_sign_document(&private_key, &document).expect("archive");

    let cursor = std::io::Cursor::new(archive_bytes);
    let mut archive = zip::ZipArchive::new(cursor).expect("readable zip");
    assert_eq!(archive.len(), 3, "a final newline adds no empty line");

    let expected_lines: [&[u8]; 3] = [b"alpha", b"beta", b"gamma"];
    for idx in 0..3 {
        let mut file = archive.by_index(idx).expect("entry");
        let mut content = String::new();
        file.read_to_string(&mut content).expect("entry content");
        let line = expected_lines[idx].to_vec();
        let signature = sign(&private_key, &line).expect("signing");
        let payload = encode_signed_message(&signature, &line);
        assert_eq!(content, encode_data(&payload).expect("render"));
    }
}

#[test]
fn empty_document_gives_an_empty_archive() {
    let (_public_key, private_key) = generate_keypair().expect("key generation");
    let archive_bytes = batch_sign_document(&private_key, &vec![]).expect("archive");
    let cursor = std::io::Cursor::new(archive_bytes);
    let archive = zip::ZipArchive::new(cursor).expect("readable zip");
    assert_eq!(archive.len(), 0);
}

#[test]
fn non_utf8_document_is_an_encoding_error() {
    let (_public_key, private_key) = generate_keypair().expect("key generation");
    let result = batch_sign_document(&private_key, &vec![0xFFu8, 0xFE, 0x00]);
    assert_eq!(result, Err(CoreError::Encoding));
}

#[test]
fn oversized_line_aborts_the_whole_batch() {
    let (_public_key, private_key) = generate_keypair().expect("key generation");
    let lines = vec![b"fine".to_vec(), vec![b'x'; 3000]];
    assert!(batch_sign_entries(&private_key, &lines).is_err());
}

#[test]
fn qr_rendering_emits_svg_and_rejects_oversized_payloads() {
    let svg = encode_data(b"PUB:test").expect("render");
    assert!(svg.starts_with("<?xml"));
    assert!(svg.contains("<svg"));
    assert!(encode_data(&vec![0u8; 2953]).is_ok());
    assert!(encode_data(&vec![0u8; 2954]).is_err());
}

#[test]
fn identical_batches_give_identical_archives() {
    let (_public_key, private_key) = generate_keypair().expect("key generation");
    let lines = vec![b"one".to_vec(), b"two".to_vec()];
    let first = batch_sign_archive(&private_key, &lines).expect("archive");
    let second = batch_sign_archive(&private_key, &lines).expect("archive");
    assert_eq!(first, second);
}
