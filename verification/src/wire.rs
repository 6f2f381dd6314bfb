//! Wire codec: the byte-level framing of the two payload kinds carried
//! inside a QR code.
//!
//! An announcement is the four ASCII bytes `PUB:` followed by the raw
//! public-key encoding; a signed message is the five ASCII bytes `SIGN:`
//! followed by a 64-byte signature and the message bytes. Anything else,
//! including any input shorter than five bytes and any `SIGN:` payload
//! truncated below 69 bytes, is unrecognized.

use vstd::prelude::*;
use vstd::slice::{slice_subrange, slice_to_vec};

verus! {

/// Width in bytes of a raw ECDSA P-256 signature (`r` then `s`).
pub const SIGNATURE_SIZE: usize = 64;

/// The ASCII bytes of the `PUB:` tag.
pub open spec fn pub_tag() -> Seq<u8> {
    seq![80u8, 85u8, 66u8, 58u8]
}

/// The ASCII bytes of the `SIGN:` tag.
pub open spec fn sign_tag() -> Seq<u8> {
    seq![83u8, 73u8, 71u8, 78u8, 58u8]
}

/// Mathematical model of a decoded QR payload.
pub enum WireModel {
    Announce { key: Seq<u8> },
    Signed { signature: Seq<u8>, message: Seq<u8> },
    Other,
}

/// A decoded QR payload.
pub enum WirePayload {
    /// `PUB:` followed by the raw public-key bytes.
    PublicKeyAnnouncement { raw_public_key: Vec<u8> },
    /// `SIGN:` followed by a 64-byte signature and the message bytes.
    SignedMessage { signature: Vec<u8>, message: Vec<u8> },
    /// Too short, or neither tag: dropped without any user-visible effect.
    Unrecognized,
}

impl View for WirePayload {
    type V = WireModel;

    open spec fn view(&self) -> WireModel {
        match self {
            WirePayload::PublicKeyAnnouncement { raw_public_key } => WireModel::Announce {
                key: raw_public_key@,
            },
            WirePayload::SignedMessage { signature, message } => WireModel::Signed {
                signature: signature@,
                message: message@,
            },
            WirePayload::Unrecognized => WireModel::Other,
        }
    }
}

/// The bytes placed in a QR code to announce a public key.
pub open spec fn encode_announcement_spec(key: Seq<u8>) -> Seq<u8> {
    pub_tag() + key
}

/// The bytes placed in a QR code to carry one signed message.
pub open spec fn encode_signed_spec(signature: Seq<u8>, message: Seq<u8>) -> Seq<u8> {
    sign_tag() + signature + message
}

/// What `decode` returns for any byte string.
pub open spec fn decode_spec(b: Seq<u8>) -> WireModel {
    if b.len() < 5 {
        WireModel::Other
    } else if b.subrange(0, 4) == pub_tag() {
        WireModel::Announce { key: b.skip(4) }
    } else if b.subrange(0, 5) == sign_tag() {
        if b.len() >= 5 + SIGNATURE_SIZE {
            WireModel::Signed {
                signature: b.subrange(5, 5 + SIGNATURE_SIZE as int),
                message: b.skip(5 + SIGNATURE_SIZE as int),
            }
        } else {
            WireModel::Other
        }
    } else {
        WireModel::Other
    }
}

/// Frame a raw public key as a `PUB:` announcement.
pub fn encode_public_key_announcement(raw_public_key: &Vec<u8>) -> (r: Vec<u8>)
    requires
        raw_public_key@.len() + 4 <= usize::MAX,
    ensures
        r@ == encode_announcement_spec(raw_public_key@),
{
    let mut out: Vec<u8> = Vec::new();
    out.push(80);
    out.push(85);
    out.push(66);
    out.push(58);
    out.extend_from_slice(raw_public_key.as_slice());
    proof {
        assert(out@ =~= encode_announcement_spec(raw_public_key@));
    }
    out
}

/// Frame a signature and message as a `SIGN:` payload.
pub fn encode_signed_message(signature: &Vec<u8>, message: &Vec<u8>) -> (r: Vec<u8>)
    requires
        signature@.len() == SIGNATURE_SIZE,
        signature@.len() + message@.len() + 5 <= usize::MAX,
    ensures
        r@ == encode_signed_spec(signature@, message@),
{
    let mut out: Vec<u8> = Vec::new();
    out.push(83);
    out.push(73);
    out.push(71);
    out.push(78);
    out.push(58);
    out.extend_from_slice(signature.as_slice());
    out.extend_from_slice(message.as_slice());
    proof {
        assert(out@ =~= encode_signed_spec(signature@, message@));
    }
    out
}

/// Classify the bytes recovered from one QR code.
///
/// Never panics: truncated input of any kind is `Unrecognized`.
pub fn decode(b: &Vec<u8>) -> (r: WirePayload)
    ensures
        r@ == decode_spec(b@),
{
    if b.len() < 5 {
        return WirePayload::Unrecognized;
    }
    if b[0] == 80 && b[1] == 85 && b[2] == 66 && b[3] == 58 {
        proof {
            assert(b@.subrange(0, 4) =~= pub_tag());
        }
        let key_slice = slice_subrange(b.as_slice(), 4, b.len());
        let raw_public_key = slice_to_vec(key_slice);
        proof {
            assert(raw_public_key@ =~= b@.skip(4));
        }
        return WirePayload::PublicKeyAnnouncement { raw_public_key };
    }
    proof {
        assert(b@.subrange(0, 4) != pub_tag()) by {
            if b@.subrange(0, 4) == pub_tag() {
                assert(b@.subrange(0, 4)[0] == 80u8);
                assert(b@.subrange(0, 4)[1] == 85u8);
                assert(b@.subrange(0, 4)[2] == 66u8);
                assert(b@.subrange(0, 4)[3] == 58u8);
            }
        }
    }
    if b[0] == 83 && b[1] == 73 && b[2] == 71 && b[3] == 78 && b[4] == 58 {
        proof {
            assert(b@.subrange(0, 5) =~= sign_tag());
        }
        if b.len() >= 5 + SIGNATURE_SIZE {
            let sig_slice = slice_subrange(b.as_slice(), 5, 5 + SIGNATURE_SIZE);
            let msg_slice = slice_subrange(b.as_slice(), 5 + SIGNATURE_SIZE, b.len());
            let signature = slice_to_vec(sig_slice);
            let message = slice_to_vec(msg_slice);
            proof {
                assert(message@ =~= b@.skip(5 + SIGNATURE_SIZE as int));
            }
            return WirePayload::SignedMessage { signature, message };
        }
        return WirePayload::Unrecognized;
    }
    proof {
        assert(b@.subrange(0, 5) != sign_tag()) by {
            if b@.subrange(0, 5) == sign_tag() {
                assert(b@.subrange(0, 5)[0] == 83u8);
                assert(b@.subrange(0, 5)[1] == 73u8);
                assert(b@.subrange(0, 5)[2] == 71u8);
                assert(b@.subrange(0, 5)[3] == 78u8);
                assert(b@.subrange(0, 5)[4] == 58u8);
            }
        }
    }
    WirePayload::Unrecognized
}

/// Law: any input shorter than five bytes decodes to `Unrecognized`.
pub proof fn lemma_short_input_unrecognized(b: Seq<u8>)
    requires
        b.len() < 5,
    ensures
        decode_spec(b) == (WireModel::Other),
{
}

/// Law: a framed announcement of a non-empty key decodes back to
/// exactly the key bytes that were framed.
pub proof fn lemma_announcement_round_trip(key: Seq<u8>)
    requires
        key.len() >= 1,
    ensures
        decode_spec(encode_announcement_spec(key)) == (WireModel::Announce { key }),
{
    let b = encode_announcement_spec(key);
    assert(b.subrange(0, 4) =~= pub_tag());
    assert(b.skip(4) =~= key);
}

/// Law: a framed signed message decodes back to exactly the signature
/// and message bytes that were framed.
pub proof fn lemma_signed_round_trip(signature: Seq<u8>, message: Seq<u8>)
    requires
        signature.len() == SIGNATURE_SIZE,
    ensures
        decode_spec(encode_signed_spec(signature, message)) == (WireModel::Signed { signature, message }),
{
    let b = encode_signed_spec(signature, message);
    assert(b.subrange(0, 4) != pub_tag()) by {
        assert(b[0] == 83u8);
        if b.subrange(0, 4) == pub_tag() {
            assert(b.subrange(0, 4)[0] == 80u8);
        }
    }
    assert(b.subrange(0, 5) =~= sign_tag());
    assert(b.subrange(5, 5 + SIGNATURE_SIZE as int) =~= signature);
    assert(b.skip(5 + SIGNATURE_SIZE as int) =~= message);
}

} // verus!
