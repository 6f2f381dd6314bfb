use qr_sign::wire::{decode, encode_public_key_announcement, encode_signed_message, WirePayload};

#[test]
fn decode_empty_is_unrecognized() {
    assert!(matches!(decode(&vec![]), WirePayload::Unrecognized));
}

#[test]
fn decode_short_inputs_are_unrecognized() {
    // every input shorter than five bytes is dropped, tag-like or not
    for b in [
        vec![80u8],
        vec![80u8, 85],
        vec![80u8, 85, 66],
        vec![80u8, 85, 66, 58],
        vec![83u8, 73, 71, 78],
        vec![0u8, 1, 2, 3],
    ] {
        assert!(matches!(decode(&b), WirePayload::Unrecognized));
    }
}

#[test]
fn decode_announcement_recovers_key() {
    let key = vec![4u8, 1, 2, 3, 4, 5];
    let framed = encode_public_key_announcement(&key);
    assert_eq!(framed[0..4], *b"PUB:");
    match decode(&framed) {
        WirePayload::PublicKeyAnnouncement { raw_public_key } => {
            assert_eq!(raw_public_key, key);
        }
        _ => panic!("expected an announcement"),
    }
}

#[test]
fn decode_signed_message_recovers_parts() {
    let signature = vec![7u8; 64];
    let message = b"hello world".to_vec();
    let framed = encode_signed_message(&signature, &message);
    assert_eq!(framed[0..5], *b"SIGN:");
    assert_eq!(framed.len(), 5 + 64 + message.len());
    match decode(&framed) {
        WirePayload::SignedMessage {
            signature: s,
            message: m,
        } => {
            assert_eq!(s, signature);
            assert_eq!(m, message);
        }
        _ => panic!("expected a signed message"),
    }
}

#[test]
fn decode_signed_with_empty_message() {
    let signature = vec![9u8; 64];
    let framed = encode_signed_message(&signature, &vec![]);
    match decode(&framed) {
        WirePayload::SignedMessage {
            signature: s,
            message: m,
        } => {
            assert_eq!(s, signature);
            assert!(m.is_empty());
        }
        _ => panic!("expected a signed message"),
    }
}

#[test]
fn decode_truncated_signed_is_unrecognized() {
    // SIGN: plus only 63 signature bytes: one short of a whole signature
    let mut framed = b"SIGN:".to_vec();
    framed.extend_from_slice(&[1u8; 63]);
    assert!(matches!(decode(&framed), WirePayload::Unrecognized));
}

#[test]
fn decode_unknown_tag_is_unrecognized() {
    let framed = b"DATA:payload".to_vec();
    assert!(matches!(decode(&framed), WirePayload::Unrecognized));
}
