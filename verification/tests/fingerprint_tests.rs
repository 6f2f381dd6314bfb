use qr_sign::fingerprint::{fingerprint, hex_colon_display};

#[test]
fn fingerprint_of_empty_input_matches_sha256_vector() {
    // SHA-256 of the empty string, in the colon-joined display form
    let expected = "E3:B0:C4:42:98:FC:1C:14:9A:FB:F4:C8:99:6F:B9:24:\
27:AE:41:E4:64:9B:93:4C:A4:95:99:1B:78:52:B8:55";
    assert_eq!(fingerprint(&vec![]), expected);
}

#[test]
fn fingerprint_of_abc_matches_sha256_vector() {
    let expected = "BA:78:16:BF:8F:01:CF:EA:41:41:40:DE:5D:AE:22:23:\
B0:03:61:A3:96:17:7A:9C:B4:10:FF:61:F2:00:15:AD";
    assert_eq!(fingerprint(&b"abc".to_vec()), expected);
}

#[test]
fn fingerprint_is_deterministic_across_repeated_calls() {
    let key = vec![4u8, 10, 20, 30, 40, 50];
    let first = fingerprint(&key);
    let second = fingerprint(&key);
    let third = fingerprint(&key.clone());
    assert_eq!(first, second);
    assert_eq!(first, third);
}

#[test]
fn different_keys_give_different_fingerprints() {
    let a = fingerprint(&vec![1u8, 2, 3]);
    let b = fingerprint(&vec![1u8, 2, 4]);
    assert_ne!(a, b);
}

#[test]
fn hex_display_formats_bytes_uppercase_and_colon_joined() {
    assert_eq!(hex_colon_display(&vec![]), "");
    assert_eq!(hex_colon_display(&vec![0u8]), "00");
    assert_eq!(hex_colon_display(&vec![0xABu8, 0x01, 0xFF]), "AB:01:FF");
}
