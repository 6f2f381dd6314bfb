use qr_sign::keys::KeyManager;
use qr_sign::wire::{decode, WirePayload};
use qr_sign::CoreError;

const PLACEHOLDER: &str = "<no public key loaded>";

#[test]
fn fresh_manager_holds_nothing() {
    let manager = KeyManager::new();
    assert!(!manager.is_signing_capable());
    assert!(manager.public_key().is_none());
    assert!(manager.public_announcement().is_none());
    assert!(manager.export_backup().is_none());
    assert_eq!(manager.fingerprint_display(), PLACEHOLDER);
}

#[test]
fn generate_holds_a_signing_pair_and_a_fingerprint() {
    let mut manager = KeyManager::new();
    manager.generate().expect("key generation");
    assert!(manager.is_signing_capable());
    let readout = manager.fingerprint_display();
    assert_ne!(readout, PLACEHOLDER);
    assert!(!readout.is_empty());
    // 32 digest bytes: 64 hex digits joined by 31 colons
    assert_eq!(readout.len(), 95);
}

#[test]
fn announcement_carries_the_held_public_key() {
    let mut manager = KeyManager::new();
    manager.generate().expect("key generation");
    let announcement = manager.public_announcement().expect("announcement");
    match decode(&announcement) {
        WirePayload::PublicKeyAnnouncement { raw_public_key } => {
            let held = manager.public_key().expect("held key");
            assert_eq!(raw_public_key, qr_sign::crypto::export_key_raw(&held));
        }
        _ => panic!("announcement did not decode"),
    }
}

#[test]
fn backup_round_trip_restores_the_fingerprint() {
    let mut source = KeyManager::new();
    source.generate().expect("key generation");
    let backup = source.export_backup().expect("export");
    let mut target = KeyManager::new();
    target.import_backup(&backup).expect("import");
    assert!(target.is_signing_capable());
    assert_eq!(source.fingerprint_display(), target.fingerprint_display());
}

#[test]
fn backup_fields_survive_reordering_and_whitespace() {
    let mut source = KeyManager::new();
    source.generate().expect("key generation");
    let backup = source.export_backup().expect("export");
    // pull the two JWK objects back out of the canonical text
    let public_start = backup.find("\"public\":").unwrap() + "\"public\":".len();
    let public_end = backup[public_start..].find('}').unwrap() + public_start + 1;
    let private_start = backup.find("\"private\":").unwrap() + "\"private\":".len();
    let private_end = backup[private_start..].find('}').unwrap() + private_start + 1;
    let reordered = format!(
        " {{ \"private\" : {} , \"public\" : {} , \"type\" : \"qr_key_pair\" }} ",
        &backup[private_start..private_end],
        &backup[public_start..public_end],
    );
    let mut target = KeyManager::new();
    target.import_backup(&reordered).expect("import");
    assert_eq!(source.fingerprint_display(), target.fingerprint_display());
}

#[test]
fn import_missing_private_half_is_a_format_error() {
    let mut manager = KeyManager::new();
    let result = manager.import_backup(r#"{"type":"qr_key_pair","public":{"kty":"EC"}}"#);
    assert_eq!(result, Err(CoreError::BackupFormat));
    assert!(!manager.is_signing_capable());
    assert!(manager.public_key().is_none());
    assert_eq!(manager.fingerprint_display(), PLACEHOLDER);
}

#[test]
fn import_wrong_type_tag_is_a_format_error() {
    let mut manager = KeyManager::new();
    let result =
        manager.import_backup(r#"{"type":"something","public":{"a":1},"private":{"b":2}}"#);
    assert_eq!(result, Err(CoreError::BackupFormat));
    assert!(manager.public_key().is_none());
}

#[test]
fn import_non_json_is_a_format_error() {
    let mut manager = KeyManager::new();
    assert_eq!(
        manager.import_backup("this is not json"),
        Err(CoreError::BackupFormat)
    );
    assert_eq!(manager.import_backup(""), Err(CoreError::BackupFormat));
    assert_eq!(manager.import_backup("[1,2,3]"), Err(CoreError::BackupFormat));
}

#[test]
fn import_bad_key_material_is_an_engine_error_and_keeps_state() {
    let mut manager = KeyManager::new();
    manager.generate().expect("key generation");
    let before = manager.fingerprint_display();
    let result = manager
        .import_backup(r#"{"type":"qr_key_pair","public":{"kty":"EC"},"private":{"kty":"EC"}}"#);
    assert_eq!(result, Err(CoreError::CryptoEngine));
    assert_eq!(manager.fingerprint_display(), before);
    assert!(manager.is_signing_capable());
}

#[test]
fn scanned_key_replaces_state_with_public_only() {
    let mut source = KeyManager::new();
    source.generate().expect("key generation");
    let held = source.public_key().expect("held key");
    let raw = qr_sign::crypto::export_key_raw(&held);

    let mut receiver = KeyManager::new();
    receiver.set_public_only(&raw).expect("scan import");
    assert!(!receiver.is_signing_capable());
    assert!(receiver.public_key().is_some());
    assert_eq!(receiver.fingerprint_display(), source.fingerprint_display());
}

#[test]
fn error_messages_are_fixed_texts() {
    assert_eq!(CoreError::BackupFormat.message(), "This file is not a key pair!");
    assert_eq!(
        CoreError::Encoding.message(),
        "The provided file is not UTF-8 encoded text."
    );
    assert_eq!(CoreError::CryptoEngine.message(), "The cryptography engine failed.");
}

#[test]
fn rejected_import_prompt_changes_nothing() {
    let mut source = KeyManager::new();
    source.generate().expect("key generation");
    let held = source.public_key().expect("held key");
    let raw = qr_sign::crypto::export_key_raw(&held);

    let mut receiver = KeyManager::new();
    qr_sign::keys::apply_import_decision(&mut receiver, &raw, false).expect("silent no-op");
    assert!(receiver.public_key().is_none());
    assert_eq!(receiver.fingerprint_display(), PLACEHOLDER);

    qr_sign::keys::apply_import_decision(&mut receiver, &raw, true).expect("accepted import");
    assert_eq!(receiver.fingerprint_display(), source.fingerprint_display());
}
