//! QR codes for short links, as SVG images.
use vstd::prelude::*;
use qrcode_generator::{QRCodeError, QrCodeEcc};
use crate::resolve::Status;

verus! {

/// The width and height, in pixels, of a generated QR code image.
pub const QR_CODE_SIZE: usize = 1024;

#[verifier::external_type_specification]
#[verifier::external_body]
pub struct ExQRCodeError(QRCodeError);

/// The SVG document that qrcode_generator draws for `data` at low error
/// correction, `size` pixels wide, with no description; `None` when it
/// cannot (the data is too long, or the image too small for it).
pub uninterp spec fn qr_svg_of(data: Seq<char>, size: nat) -> Option<Seq<char>>;

/// Relies on `qrcode_generator::to_svg_to_string` with `QrCodeEcc::Low` and
/// no description: the image depends on the data and the size alone.
#[verifier::external_body]
fn svg_of_text(data: &str, size: usize) -> (r: Result<String, QRCodeError>)
    ensures
        r matches Ok(svg) ==> qr_svg_of(data@, size as nat) == Some(svg@),
        r is Err ==> qr_svg_of(data@, size as nat) is None,
{
    qrcode_generator::to_svg_to_string(data, QrCodeEcc::Low, size, None::<&str>)
}

/// Draws the QR code of a short link as an SVG image of `QR_CODE_SIZE`
/// pixels; `InternalServerError` when the encoder cannot draw it.
pub fn generate_qr_code(shrink: &str) -> (r: Result<String, Status>)
    ensures
        match qr_svg_of(shrink@, QR_CODE_SIZE as nat) {
            Some(svg) => (r matches Ok(s) && s@ == svg),
            None => r == Err::<String, Status>(Status::InternalServerError),
        },
{
    match svg_of_text(shrink, QR_CODE_SIZE) {
        Ok(svg) => Ok(svg),
        Err(_) => Err(Status::InternalServerError),
    }
}

} // verus!
