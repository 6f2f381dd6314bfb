//! Key exchange and message authentication over QR codes.
//!
//! Two parties exchange an ECDSA P-256 public key and authenticate short
//! text messages using only a camera and a displayed QR code as transport.
//! The crate owns the byte-level framing of QR payloads, the key lifecycle
//! around a signing key pair, the SHA-256 fingerprint used for out-of-band
//! trust verification, the scan de-duplication state machine, and the
//! batch-signing pipeline that packages signed lines into an archive.

use vstd::prelude::*;

pub mod backup;
pub mod batch;
pub mod crypto;
pub mod fingerprint;
pub mod keys;
pub mod qr;
pub mod scan;
pub mod text;
pub mod wire;

verus! {

/// Errors surfaced to the user. Payload framing problems are not here:
/// unrecognized QR content is silently dropped, never reported.
#[derive(Clone, Copy, PartialEq, Eq, Structural, Debug)]
pub enum CoreError {
    /// The platform cryptography engine refused an operation
    /// (unsupported key material, signing or verification failure).
    CryptoEngine,
    /// A key-pair backup file does not have the expected JSON shape.
    BackupFormat,
    /// A text file to be signed is not valid UTF-8.
    Encoding,
}

impl CoreError {
    /// The user-facing message for this error.
    pub fn message(&self) -> (r: &'static str)
        ensures
            *self is BackupFormat ==> r@ == "This file is not a key pair!"@,
            *self is Encoding ==> r@ == "The provided file is not UTF-8 encoded text."@,
            *self is CryptoEngine ==> r@ == "The cryptography engine failed."@,
    {
        match self {
            CoreError::CryptoEngine => "The cryptography engine failed.",
            CoreError::BackupFormat => "This file is not a key pair!",
            CoreError::Encoding => "The provided file is not UTF-8 encoded text.",
        }
    }
}

} // verus!
