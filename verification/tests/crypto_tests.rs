use qr_sign::crypto::{
    export_key, export_key_raw, generate_keypair, import_private_key, import_public_key,
    import_public_key_raw, sign, sign_verify_round_trip, verify,
};

#[test]
fn generated_pair_signs_and_verifies() {
    let (public_key, private_key) = generate_keypair().expect("key generation");
    let message = b"hello world".to_vec();
    let signature = sign(&private_key, &message).expect("signing");
    assert_eq!(signature.len(), 64);
    assert!(verify(&public_key, &signature, &message));
}

#[test]
fn round_trip_law_holds_on_a_generated_pair() {
    let (public_key, private_key) = generate_keypair().expect("key generation");
    let message = b"the quick brown fox".to_vec();
    let ok = sign_verify_round_trip(&private_key, &public_key, &message).expect("signing");
    assert!(ok);
}

#[test]
fn signing_is_deterministic() {
    let (_public_key, private_key) = generate_keypair().expect("key generation");
    let message = b"same message".to_vec();
    let first = sign(&private_key, &message).expect("signing");
    let second = sign(&private_key, &message).expect("signing");
    assert_eq!(first, second);
}

#[test]
fn flipping_any_signature_bit_fails_verification() {
    let (public_key, private_key) = generate_keypair().expect("key generation");
    let message = b"bit flip".to_vec();
    let signature = sign(&private_key, &message).expect("signing");
    for byte in 0..signature.len() {
        let mut tampered = signature.clone();
        tampered[byte] ^= 1;
        assert!(
            !verify(&public_key, &tampered, &message),
            "bit flip in byte {} went unnoticed",
            byte
        );
    }
}

#[test]
fn flipping_a_message_bit_fails_verification() {
    let (public_key, private_key) = generate_keypair().expect("key generation");
    let message = b"original text".to_vec();
    let signature = sign(&private_key, &message).expect("signing");
    for byte in 0..message.len() {
        let mut tampered = message.clone();
        tampered[byte] ^= 1;
        assert!(!verify(&public_key, &signature, &tampered));
    }
}

#[test]
fn verification_fails_under_a_different_key() {
    let (_p1, private_key) = generate_keypair().expect("key generation");
    let (other_public, _k2) = generate_keypair().expect("key generation");
    let message = b"wrong key".to_vec();
    let signature = sign(&private_key, &message).expect("signing");
    assert!(!verify(&other_public, &signature, &message));
}

#[test]
fn raw_public_key_export_import_round_trip() {
    let (public_key, _private_key) = generate_keypair().expect("key generation");
    let raw = export_key_raw(&public_key);
    assert_eq!(raw.len(), 65);
    assert_eq!(raw[0], 4, "uncompressed point encoding starts with 0x04");
    let imported = import_public_key_raw(&raw).expect("raw import");
    assert_eq!(export_key_raw(&imported), raw);
}

#[test]
fn raw_import_rejects_bad_lengths_and_garbage() {
    assert!(import_public_key_raw(&vec![]).is_err());
    assert!(import_public_key_raw(&vec![4u8; 33]).is_err());
    assert!(import_public_key_raw(&vec![0u8; 65]).is_err());
    let mut garbage = vec![4u8];
    garbage.extend_from_slice(&[0xABu8; 64]);
    assert!(import_public_key_raw(&garbage).is_err());
}

#[test]
fn jwk_export_import_round_trip_public_half() {
    let (public_key, _private_key) = generate_keypair().expect("key generation");
    let jwk = export_key(&public_key);
    assert!(jwk.starts_with('{') && jwk.ends_with('}'));
    let imported = import_public_key(&jwk).expect("jwk import");
    assert_eq!(export_key_raw(&imported), export_key_raw(&public_key));
}

#[test]
fn jwk_import_rejects_non_jwk_text() {
    assert!(import_public_key("not a jwk").is_err());
    assert!(import_private_key("{}").is_err());
}

#[test]
fn wrong_length_signatures_never_verify() {
    let (public_key, private_key) = generate_keypair().expect("key generation");
    let message = b"sized".to_vec();
    let signature = sign(&private_key, &message).expect("signing");
    let mut short = signature.clone();
    short.pop();
    assert!(!verify(&public_key, &short, &message));
    let mut long = signature.clone();
    long.push(0);
    assert!(!verify(&public_key, &long, &message));
    assert!(!verify(&public_key, &vec![], &message));
}
