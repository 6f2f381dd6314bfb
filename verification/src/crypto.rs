//! Crypto engine seam: ECDSA P-256 key generation, signing, verification,
//! and JWK import/export, delegated to an outside elliptic-curve crate.
//!
//! Keys are modelled as their platform-native byte encodings: a public key
//! is the 65-byte uncompressed SEC1 point, a private key the 32-byte scalar.
//! What only the engine can compute is named by uninterpreted spec functions
//! and stated in the contracts of the trusted wrappers below; everything
//! around the calls is verified.

use vstd::prelude::*;
use p256::elliptic_curve::sec1::ToEncodedPoint;
use rand_core::RngCore;

verus! {

/// Whether a byte string is a SEC1 encoding of a point on the P-256 curve,
/// as accepted by the engine's raw public-key import.
pub uninterp spec fn valid_pub_bytes(b: Seq<u8>) -> bool;

/// Whether a byte string is a valid P-256 private scalar,
/// as accepted by the engine's private-key import.
pub uninterp spec fn valid_priv_bytes(b: Seq<u8>) -> bool;

/// The uncompressed SEC1 encoding of the public key derived from a private
/// scalar.
pub uninterp spec fn pubkey_of(private_bytes: Seq<u8>) -> Seq<u8>;

/// The RFC 6979 deterministic ECDSA/SHA-256 signature of a message under a
/// private key: 64 bytes, `r` then `s`.
pub uninterp spec fn sig_of(private_bytes: Seq<u8>, message: Seq<u8>) -> Seq<u8>;

/// Whether the engine signs this message with this key: like the signature
/// itself this is deterministic, a function of key and message alone, so
/// success and failure can be named exactly.
pub uninterp spec fn sign_ok(private_bytes: Seq<u8>, message: Seq<u8>) -> bool;

/// Whether a 64-byte signature verifies over a message under a public key.
pub uninterp spec fn verifies(pub_bytes: Seq<u8>, signature: Seq<u8>, message: Seq<u8>) -> bool;

/// The JWK text of a public key.
pub uninterp spec fn jwk_pub_of(pub_bytes: Seq<u8>) -> Seq<char>;

/// The JWK text of a private key.
pub uninterp spec fn jwk_priv_of(private_bytes: Seq<u8>) -> Seq<char>;

/// The uncompressed public-key bytes recovered from JWK text, if it parses.
pub uninterp spec fn jwk_pub_parse(jwk: Seq<char>) -> Option<Seq<u8>>;

/// The private-scalar bytes recovered from JWK text, if it parses.
pub uninterp spec fn jwk_priv_parse(jwk: Seq<char>) -> Option<Seq<u8>>;

/// Whether a character opens or closes a JSON object or array.
pub open spec fn structural_char(c: char) -> bool {
    c == '{' || c == '}' || c == '[' || c == ']'
}

/// The shape of the JWK texts the engine emits: one flat JSON object whose
/// interior holds no object or array delimiters (its string values are
/// base64url and fixed names).
pub open spec fn flat_object_shape(s: Seq<char>) -> bool {
    &&& s.len() >= 2
    &&& s[0] == '{'
    &&& s[s.len() - 1] == '}'
    &&& (forall|i: int| 1 <= i < s.len() - 1 ==> !structural_char(s[i]))
}

/// Relies on `rand_core::OsRng` and `p256::SecretKey`: a fresh P-256 key
/// pair; the public half is the uncompressed SEC1 point (65 bytes) derived
/// from the private scalar (32 bytes). Fails only if the operating system's
/// randomness source fails or the drawn scalar is out of range.
#[verifier::external_body]
fn engine_generate() -> (r: Result<(Vec<u8>, Vec<u8>), ()>)
    ensures
        r matches Ok(p) ==> ({
            &&& p.0@.len() == 65
            &&& p.1@.len() == 32
            &&& p.0@ == pubkey_of(p.1@)
            &&& valid_pub_bytes(p.0@)
            &&& valid_priv_bytes(p.1@)
        }),
{
    let mut buf = [0u8; 32];
    if rand_core::OsRng.try_fill_bytes(&mut buf).is_err() {
        return Err(());
    }
    match p256::SecretKey::from_slice(&buf) {
        Ok(sk) => {
            let pk = sk.public_key().to_encoded_point(false).as_bytes().to_vec();
            Ok((pk, sk.to_bytes().to_vec()))
        },
        Err(_) => Err(()),
    }
}

/// Relies on `p256::ecdsa::SigningKey::{from_slice, try_sign}`: the RFC
/// 6979 deterministic ECDSA/SHA-256 signature, a function of key and
/// message alone, which verifies under the public key derived from the
/// same private scalar. Success is equally deterministic — the only error
/// paths are the scalar check in `from_slice` and the zero-value checks in
/// `try_sign_prehashed_rfc6979`, all functions of key and message — so it
/// is named by `sign_ok`.
#[verifier::external_body]
fn engine_sign(private_bytes: &Vec<u8>, message: &Vec<u8>) -> (r: Result<Vec<u8>, ()>)
    requires
        valid_priv_bytes(private_bytes@),
    ensures
        r is Ok <==> sign_ok(private_bytes@, message@),
        r matches Ok(sig) ==> ({
            &&& sig@ == sig_of(private_bytes@, message@)
            &&& sig@.len() == 64
            &&& verifies(pubkey_of(private_bytes@), sig@, message@)
        }),
{
    let key = match p256::ecdsa::SigningKey::from_slice(private_bytes) {
        Ok(k) => k,
        Err(_) => return Err(()),
    };
    match p256::ecdsa::signature::Signer::<p256::ecdsa::Signature>::try_sign(&key, message) {
        Ok(sig) => Ok(sig.to_bytes().to_vec()),
        Err(_) => Err(()),
    }
}

/// Relies on `p256::ecdsa::VerifyingKey::{from_sec1_bytes, verify}`: whether
/// the 64-byte signature verifies over the message under the given public
/// key. A 64-byte string that is not a well-formed signature verifies
/// nothing.
#[verifier::external_body]
fn engine_verify(pub_bytes: &Vec<u8>, signature: &Vec<u8>, message: &Vec<u8>) -> (r: bool)
    requires
        valid_pub_bytes(pub_bytes@),
        signature@.len() == 64,
    ensures
        r == verifies(pub_bytes@, signature@, message@),
{
    let key = match p256::ecdsa::VerifyingKey::from_sec1_bytes(pub_bytes) {
        Ok(k) => k,
        Err(_) => return false,
    };
    let sig = match p256::ecdsa::Signature::from_slice(signature) {
        Ok(s) => s,
        Err(_) => return false,
    };
    p256::ecdsa::signature::Verifier::verify(&key, message, &sig).is_ok()
}

/// Relies on `p256::ecdsa::VerifyingKey::from_sec1_bytes`: accepts exactly
/// the byte strings that encode a point on the curve.
#[verifier::external_body]
fn engine_check_pub(raw: &Vec<u8>) -> (r: bool)
    ensures
        r == valid_pub_bytes(raw@),
{
    p256::ecdsa::VerifyingKey::from_sec1_bytes(raw).is_ok()
}

/// Relies on `p256::PublicKey::{from_sec1_bytes, to_jwk_string}`: the JWK
/// text of a public key, a function of the key bytes alone; parsing that
/// text recovers exactly the uncompressed key bytes it was made from, and
/// the text is one flat JSON object.
#[verifier::external_body]
fn engine_export_pub_jwk(pub_bytes: &Vec<u8>) -> (r: String)
    requires
        valid_pub_bytes(pub_bytes@),
        pub_bytes@.len() == 65,
    ensures
        r@ == jwk_pub_of(pub_bytes@),
        jwk_pub_parse(r@) == Some(pub_bytes@),
        flat_object_shape(r@),
{
    let key = p256::PublicKey::from_sec1_bytes(pub_bytes).expect("caller checked validity");
    key.to_jwk_string()
}

/// Relies on `p256::SecretKey::{from_slice, to_jwk_string}`: the JWK text of
/// a private key, a function of the scalar bytes alone; parsing that text
/// recovers exactly the scalar bytes it was made from, and the text is one
/// flat JSON object.
#[verifier::external_body]
fn engine_export_priv_jwk(private_bytes: &Vec<u8>) -> (r: String)
    requires
        valid_priv_bytes(private_bytes@),
    ensures
        r@ == jwk_priv_of(private_bytes@),
        jwk_priv_parse(r@) == Some(private_bytes@),
        flat_object_shape(r@),
{
    let key = p256::SecretKey::from_slice(private_bytes).expect("caller checked validity");
    let jwk = key.to_jwk_string();
    (*jwk).clone()
}

/// Relies on `p256::PublicKey::{from_jwk_str, to_encoded_point}`: recovers a
/// verify-capable public key from JWK text, as the 65-byte uncompressed
/// point.
#[verifier::external_body]
fn engine_import_pub_jwk(jwk: &str) -> (r: Result<Vec<u8>, ()>)
    ensures
        r is Ok <==> jwk_pub_parse(jwk@) is Some,
        r matches Ok(b) ==> ({
            &&& Some(b@) == jwk_pub_parse(jwk@)
            &&& b@.len() == 65
            &&& valid_pub_bytes(b@)
        }),
{
    match p256::PublicKey::from_jwk_str(jwk) {
        Ok(k) => Ok(k.to_encoded_point(false).as_bytes().to_vec()),
        Err(_) => Err(()),
    }
}

/// Relies on `p256::SecretKey::{from_jwk_str, to_bytes}`: recovers a
/// sign-capable private key from JWK text, as the 32-byte scalar.
#[verifier::external_body]
fn engine_import_priv_jwk(jwk: &str) -> (r: Result<Vec<u8>, ()>)
    ensures
        r is Ok <==> jwk_priv_parse(jwk@) is Some,
        r matches Ok(b) ==> ({
            &&& Some(b@) == jwk_priv_parse(jwk@)
            &&& b@.len() == 32
            &&& valid_priv_bytes(b@)
        }),
{
    match p256::SecretKey::from_jwk_str(jwk) {
        Ok(k) => Ok(k.to_bytes().to_vec()),
        Err(_) => Err(()),
    }
}

/// A verify-capable public key held as its raw transport encoding.
pub struct PublicKey {
    bytes: Vec<u8>,
}

/// A sign-capable private key held as its raw scalar encoding.
pub struct PrivateKey {
    bytes: Vec<u8>,
}

impl View for PublicKey {
    type V = Seq<u8>;

    closed spec fn view(&self) -> Seq<u8> {
        self.bytes@
    }
}

impl View for PrivateKey {
    type V = Seq<u8>;

    closed spec fn view(&self) -> Seq<u8> {
        self.bytes@
    }
}

impl PublicKey {
    /// Every held public key is a 65-byte uncompressed point on the curve.
    #[verifier::type_invariant]
    pub closed spec fn wf(self) -> bool {
        self@.len() == 65 && valid_pub_bytes(self@)
    }

    /// An identical key, byte for byte.
    pub fn clone_key(&self) -> (r: PublicKey)
        ensures
            r@ == self@,
    {
        proof {
            use_type_invariant(self);
        }
        PublicKey { bytes: self.bytes.clone() }
    }
}

impl PrivateKey {
    /// Every held private key is a valid scalar.
    #[verifier::type_invariant]
    pub closed spec fn wf(self) -> bool {
        valid_priv_bytes(self@)
    }

    /// An identical key, byte for byte.
    pub fn clone_key(&self) -> (r: PrivateKey)
        ensures
            r@ == self@,
    {
        proof {
            use_type_invariant(self);
        }
        PrivateKey { bytes: self.bytes.clone() }
    }
}

/// Request a fresh key pair from the crypto engine, capable of signing and
/// verification. Fails only if the engine refuses.
pub fn generate_keypair() -> (r: Result<(PublicKey, PrivateKey), crate::CoreError>)
    ensures
        r matches Ok(pair) ==> ({
            &&& pair.0@ == pubkey_of(pair.1@)
            &&& pair.0@.len() == 65
            &&& pair.1@.len() == 32
            &&& valid_pub_bytes(pair.0@)
            &&& valid_priv_bytes(pair.1@)
        }),
        r matches Err(e) ==> e == crate::CoreError::CryptoEngine,
{
    match engine_generate() {
        Ok((pub_bytes, priv_bytes)) => Ok(
            (PublicKey { bytes: pub_bytes }, PrivateKey { bytes: priv_bytes }),
        ),
        Err(()) => Err(crate::CoreError::CryptoEngine),
    }
}

/// Sign a message's exact bytes with the private key. The signature is the
/// engine's deterministic 64-byte ECDSA signature, and verifies under the
/// public key derived from the same private key. Success is deterministic
/// too: this fails exactly when the engine refuses the key and message.
pub fn sign(private_key: &PrivateKey, message: &Vec<u8>) -> (r: Result<
    Vec<u8>,
    crate::CoreError,
>)
    ensures
        r is Ok <==> sign_ok(private_key@, message@),
        r matches Ok(sig) ==> ({
            &&& sig@ == sig_of(private_key@, message@)
            &&& sig@.len() == 64
            &&& verifies(pubkey_of(private_key@), sig@, message@)
        }),
        r matches Err(e) ==> e == crate::CoreError::CryptoEngine,
{
    proof {
        use_type_invariant(private_key);
    }
    match engine_sign(&private_key.bytes, message) {
        Ok(sig) => Ok(sig),
        Err(()) => Err(crate::CoreError::CryptoEngine),
    }
}

/// Check a signature over a message against the public key. Accepts any
/// byte string as the signature: only an exactly 64-byte one can verify.
pub fn verify(public_key: &PublicKey, signature: &Vec<u8>, data: &Vec<u8>) -> (r: bool)
    ensures
        r == (signature@.len() == 64 && verifies(public_key@, signature@, data@)),
{
    if signature.len() != 64 {
        return false;
    }
    proof {
        use_type_invariant(public_key);
    }
    engine_verify(&public_key.bytes, signature, data)
}

/// Import a scanned raw public key, restricted to verification use.
/// Accepts exactly the 65-byte uncompressed encodings of curve points.
pub fn import_public_key_raw(raw: &Vec<u8>) -> (r: Result<PublicKey, crate::CoreError>)
    ensures
        r is Ok <==> raw@.len() == 65 && valid_pub_bytes(raw@),
        r matches Ok(k) ==> k@ == raw@,
        r matches Err(e) ==> e == crate::CoreError::CryptoEngine,
{
    if raw.len() != 65 {
        return Err(crate::CoreError::CryptoEngine);
    }
    if engine_check_pub(raw) {
        let mut bytes: Vec<u8> = Vec::new();
        bytes.extend_from_slice(raw.as_slice());
        proof {
            assert(bytes@ =~= raw@);
        }
        Ok(PublicKey { bytes })
    } else {
        Err(crate::CoreError::CryptoEngine)
    }
}

/// Import the public half of a backup, restricted to verification use.
pub fn import_public_key(jwk: &str) -> (r: Result<PublicKey, crate::CoreError>)
    ensures
        r is Ok <==> jwk_pub_parse(jwk@) is Some,
        r matches Ok(k) ==> Some(k@) == jwk_pub_parse(jwk@) && k@.len() == 65,
        r matches Err(e) ==> e == crate::CoreError::CryptoEngine,
{
    match engine_import_pub_jwk(jwk) {
        Ok(bytes) => Ok(PublicKey { bytes }),
        Err(()) => Err(crate::CoreError::CryptoEngine),
    }
}

/// Import the private half of a backup, restricted to signing use.
pub fn import_private_key(jwk: &str) -> (r: Result<PrivateKey, crate::CoreError>)
    ensures
        r is Ok <==> jwk_priv_parse(jwk@) is Some,
        r matches Ok(k) ==> Some(k@) == jwk_priv_parse(jwk@),
        r matches Err(e) ==> e == crate::CoreError::CryptoEngine,
{
    match engine_import_priv_jwk(jwk) {
        Ok(bytes) => Ok(PrivateKey { bytes }),
        Err(()) => Err(crate::CoreError::CryptoEngine),
    }
}

/// The raw transport encoding of the public key: what is framed into a
/// `PUB:` announcement and hashed for the fingerprint.
pub fn export_key_raw(public_key: &PublicKey) -> (r: Vec<u8>)
    ensures
        r@ == public_key@,
        r@.len() == 65,
{
    proof {
        use_type_invariant(public_key);
    }
    let mut bytes: Vec<u8> = Vec::new();
    bytes.extend_from_slice(public_key.bytes.as_slice());
    proof {
        assert(bytes@ =~= public_key@);
    }
    bytes
}

/// Export the public half in portable JWK form.
pub fn export_key(public_key: &PublicKey) -> (r: String)
    ensures
        r@ == jwk_pub_of(public_key@),
        jwk_pub_parse(r@) == Some(public_key@),
        flat_object_shape(r@),
{
    proof {
        use_type_invariant(public_key);
    }
    engine_export_pub_jwk(&public_key.bytes)
}

/// Export the private half in portable JWK form.
pub fn export_private_key(private_key: &PrivateKey) -> (r: String)
    ensures
        r@ == jwk_priv_of(private_key@),
        jwk_priv_parse(r@) == Some(private_key@),
        flat_object_shape(r@),
{
    proof {
        use_type_invariant(private_key);
    }
    engine_export_priv_jwk(&private_key.bytes)
}

/// Law: signing and verifying agree — whenever the public key is the one
/// derived from the private key, a signature produced over any message
/// verifies under it. Stated over the engine's names exactly as the signing
/// contract gives them; it succeeds exactly when signing does.
pub fn sign_verify_round_trip(private_key: &PrivateKey, public_key: &PublicKey, message: &Vec<u8>) -> (r: Result<bool, crate::CoreError>)
    ensures
        r is Ok <==> sign_ok(private_key@, message@),
        public_key@ == pubkey_of(private_key@) ==> (r matches Ok(v) ==> v),
        r matches Ok(v) ==> v == verifies(public_key@, sig_of(private_key@, message@), message@),
        r matches Err(e) ==> e == crate::CoreError::CryptoEngine,
{
    let sig = sign(private_key, message)?;
    Ok(verify(public_key, &sig, message))
}

} // verus!
