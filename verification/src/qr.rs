//! PNG images of QR codes, drawn by `qrcode_generator`.
use vstd::prelude::*;

verus! {

#[verifier::external_type_specification]
#[verifier::external_body]
pub struct ExQRCodeError(qrcode_generator::QRCodeError);

/// Error-correction level of a QR code.
#[derive(Clone, Copy, Debug, PartialEq, Eq, Structural)]
pub enum QrEcc {
    Low,
    Medium,
    Quartile,
    High,
}

/// What `qrcode_generator` draws for `data` at error-correction level `ecc`
/// on a `size` by `size` image: the PNG bytes, or `None` where it fails.
pub uninterp spec fn qr_png(data: Seq<char>, ecc: QrEcc, size: usize) -> Option<Seq<u8>>;

/// `qrcode_generator::to_png_to_vec`. Its outcome depends on its arguments
/// alone and is named `qr_png`: the PNG where it succeeds, `None` where it
/// fails (data too long for any QR version, an image too small or too large
/// for the code, or an image encoding error). When each failure comes is not
/// stated: it rests on QR capacity tables and the PNG encoder.
#[verifier::external_body]
pub(crate) fn qr_png_bytes(data: &str, ecc: QrEcc, size: usize) -> (r: Result<Vec<u8>, qrcode_generator::QRCodeError>)
    ensures
        match r {
            Ok(v) => qr_png(data@, ecc, size) == Some(v@),
            Err(_) => qr_png(data@, ecc, size) is None,
        },
{
    let level = match ecc {
        QrEcc::Low => qrcode_generator::QrCodeEcc::Low,
        QrEcc::Medium => qrcode_generator::QrCodeEcc::Medium,
        QrEcc::Quartile => qrcode_generator::QrCodeEcc::Quartile,
        QrEcc::High => qrcode_generator::QrCodeEcc::High,
    };
    qrcode_generator::to_png_to_vec(data, level, size)
}

} // verus!
