//! QR rendering of links, as text of half-block characters.
use qrcode_rs::render::unicode::Dense1x2;
use vstd::prelude::*;

verus! {

/// The text that `qrcode_rs` renders for `data` at error correction level L,
/// in dense 1x2 unicode blocks with dark and light swapped.
pub uninterp spec fn qr_text_of(data: Seq<char>) -> Seq<char>;

/// Whether `data` fits in a QR code at error correction level L, so that
/// `qrcode_rs` encodes it rather than failing.
pub uninterp spec fn qr_fits(data: Seq<char>) -> bool;

/// Relies on `qrcode_rs::QrCode::with_error_correction_level` and its unicode
/// renderer: the encoder is deterministic, so the text depends on the data alone.
/// It fails (`None`) exactly where the data does not fit in a QR code; the
/// renderer does not fail on an encoded code.
#[verifier::external_body]
pub(crate) fn render_qr(data: &str) -> (r: Option<String>)
    ensures
        r is Some <==> qr_fits(data@),
        r matches Some(t) ==> t@ == qr_text_of(data@),
{
    match qrcode_rs::QrCode::with_error_correction_level(data, qrcode_rs::EcLevel::L) {
        Ok(code) => Some(
            code.render::<Dense1x2>().dark_color(Dense1x2::Light).light_color(Dense1x2::Dark).build(),
        ),
        Err(_) => None,
    }
}

} // verus!
