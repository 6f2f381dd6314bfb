//! Matrix-code codec seam: rendering a byte payload as a scannable image
//! is delegated to an outside QR encoder.

use vstd::prelude::*;

verus! {

/// Payload capacity of the largest QR code in byte mode.
pub const QR_MAX_BYTES: usize = 2953;

/// The SVG text the codec renders for a byte payload, at low error
/// correction with a five-module border: a function of the payload alone.
pub uninterp spec fn qr_svg_of(data: Seq<u8>) -> Seq<char>;

/// Relies on `qrcodegen::QrCode::{encode_binary, to_svg_string}`: succeeds
/// exactly when the payload fits in some QR version at low error
/// correction — at most 2953 bytes in byte mode — and renders the code as
/// SVG text. The text is plain ASCII, and its length is bounded: a fixed
/// header and tail around at most 177 x 177 path items of at most 17
/// characters each, well under 600000 characters in all.
#[verifier::external_body]
pub fn encode_data(data: &[u8]) -> (r: Result<String, ()>)
    ensures
        r is Ok <==> data@.len() <= QR_MAX_BYTES,
        r matches Ok(svg) ==> svg@ == qr_svg_of(data@),
        r matches Ok(svg) ==> svg@.len() < 600000 && vstd::utf8::is_ascii_chars(svg@),
{
    match qrcodegen::QrCode::encode_binary(data, qrcodegen::QrCodeEcc::Low) {
        Ok(qr) => Ok(qr.to_svg_string(5)),
        Err(_) => Err(()),
    }
}

} // verus!
