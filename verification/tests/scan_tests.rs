use qr_sign::crypto::{export_key_raw, generate_keypair, sign};
use qr_sign::scan::{handle_signed, ScanAction, ScanDispatcher, VerifyOutcome};
use qr_sign::wire::{encode_public_key_announcement, encode_signed_message};

fn payload_as_scan_text(payload: &[u8]) -> String {
    // the live scanner hands binary QR content through a text channel,
    // one character per byte
    payload.iter().map(|&b| b as char).collect()
}

#[test]
fn duplicate_frames_produce_exactly_one_action() {
    let (public_key, private_key) = generate_keypair().expect("key generation");
    let message = b"dedup me".to_vec();
    let signature = sign(&private_key, &message).expect("signing");
    let text = payload_as_scan_text(&encode_signed_message(&signature, &message));
    let _ = public_key;

    let mut dispatcher = ScanDispatcher::new();
    let first = dispatcher.on_scan(text.clone(), true);
    assert!(matches!(first, ScanAction::VerifySigned { .. }));
    let second = dispatcher.on_scan(text.clone(), true);
    assert!(matches!(second, ScanAction::Ignore));
    let third = dispatcher.on_scan(text, true);
    assert!(matches!(third, ScanAction::Ignore));
}

#[test]
fn a_changed_frame_acts_again() {
    let mut dispatcher = ScanDispatcher::new();
    let announcement = payload_as_scan_text(&encode_public_key_announcement(&vec![4u8; 65]));
    let first = dispatcher.on_scan(announcement.clone(), false);
    assert!(matches!(first, ScanAction::PromptImport { .. }));
    let second = dispatcher.on_scan("something else".to_owned(), false);
    assert!(matches!(second, ScanAction::Ignore));
    let third = dispatcher.on_scan(announcement, false);
    assert!(matches!(third, ScanAction::PromptImport { .. }));
}

#[test]
fn announcement_prompts_with_key_fingerprint() {
    let (public_key, _private_key) = generate_keypair().expect("key generation");
    let raw = export_key_raw(&public_key);
    let text = payload_as_scan_text(&encode_public_key_announcement(&raw));

    let mut dispatcher = ScanDispatcher::new();
    match dispatcher.on_scan(text, false) {
        ScanAction::PromptImport {
            raw_public_key,
            fingerprint,
        } => {
            assert_eq!(raw_public_key, raw);
            assert_eq!(fingerprint, qr_sign::fingerprint::fingerprint(&raw));
        }
        _ => panic!("expected an import prompt"),
    }
}

#[test]
fn signed_scan_without_a_held_key_is_silently_ignored() {
    let (_public_key, private_key) = generate_keypair().expect("key generation");
    let message = b"nobody listens".to_vec();
    let signature = sign(&private_key, &message).expect("signing");
    let text = payload_as_scan_text(&encode_signed_message(&signature, &message));

    let mut dispatcher = ScanDispatcher::new();
    let action = dispatcher.on_scan(text, false);
    assert!(matches!(action, ScanAction::Ignore));
}

#[test]
fn noise_frames_are_ignored() {
    let mut dispatcher = ScanDispatcher::new();
    assert!(matches!(dispatcher.on_scan("hi".to_owned(), true), ScanAction::Ignore));
    assert!(matches!(
        dispatcher.on_scan("random scan".to_owned(), true),
        ScanAction::Ignore
    ));
}

#[test]
fn verified_message_is_presented_as_text() {
    let (public_key, private_key) = generate_keypair().expect("key generation");
    let message = b"attested".to_vec();
    let signature = sign(&private_key, &message).expect("signing");
    match handle_signed(&public_key, &signature, &message) {
        VerifyOutcome::Verified { message_text } => assert_eq!(message_text, "attested"),
        _ => panic!("expected a verified outcome"),
    }
}

#[test]
fn tampered_message_is_presented_as_failed() {
    let (public_key, private_key) = generate_keypair().expect("key generation");
    let message = b"attested".to_vec();
    let signature = sign(&private_key, &message).expect("signing");
    let outcome = handle_signed(&public_key, &signature, &b"attested!".to_vec());
    assert!(matches!(outcome, VerifyOutcome::Failed));
}

#[test]
fn verified_non_utf8_message_is_presented_opaquely() {
    let (public_key, private_key) = generate_keypair().expect("key generation");
    let message = vec![0xFFu8, 0xFE, 0x00, 0x80];
    let signature = sign(&private_key, &message).expect("signing");
    let outcome = handle_signed(&public_key, &signature, &message);
    assert!(matches!(outcome, VerifyOutcome::VerifiedOpaque));
}

#[test]
fn truncated_signature_is_presented_as_failed() {
    let (public_key, private_key) = generate_keypair().expect("key generation");
    let message = b"short sig".to_vec();
    let mut signature = sign(&private_key, &message).expect("signing");
    signature.pop();
    let outcome = handle_signed(&public_key, &signature, &message);
    assert!(matches!(outcome, VerifyOutcome::Failed));
}
