//! The calls that leave this crate: image sniffing, base64 and fresh ids.
//!
//! Nothing in this file is proved. Each function makes one call into another
//! crate, and its contract is what is taken on trust about that call.

use crate::dump_api::ImageKind;
use base64::engine::general_purpose::STANDARD;
use base64::Engine;
use image::ImageFormat;
use vstd::prelude::*;

verus! {

/// The error of the `image` crate, carried through as it is.
#[verifier::external_type_specification]
#[verifier::external_body]
pub struct ExImageError(image::ImageError);

/// The format that `image::guess_format` reads off the first bytes of a
/// picture, and `None` where it recognises none.
pub uninterp spec fn guessed_image_kind(bytes: Seq<u8>) -> Option<ImageKind>;

/// The text that the standard base64 alphabet, with padding, gives for
/// `bytes`.
pub uninterp spec fn base64_standard(bytes: Seq<u8>) -> Seq<char>;

/// The length of the padded base64 text for `n` bytes: four characters for
/// every three bytes begun.
pub open spec fn base64_len(n: nat) -> nat {
    (n + 2) / 3 * 4
}

/// Whether `uuid` carries the marks of a random UUID: version 4 in the
/// version field and the two variant bits `10`.
pub open spec fn is_random_uuid(uuid: u128) -> bool {
    uuid & 0x0000_0000_0000_f000_c000_0000_0000_0000 == 0x0000_0000_0000_4000_8000_0000_0000_0000
}

/// Calls `image::guess_format`, which compares the first bytes of `bytes`
/// with a table of signatures. It is a function of the bytes alone; the
/// contract gives its answer the name [`guessed_image_kind`], with a format
/// that this crate has no name for counted as [`ImageKind::Other`].
#[verifier::external_body]
pub(crate) fn guess_image_kind(bytes: &[u8]) -> (kind: Result<ImageKind, image::ImageError>)
    ensures
        match kind {
            Ok(k) => guessed_image_kind(bytes@) == Some(k),
            Err(_) => guessed_image_kind(bytes@) is None,
        },
{
    image::guess_format(bytes).map(|format| match format {
        ImageFormat::Png => ImageKind::Png, ImageFormat::Jpeg => ImageKind::Jpeg,
        ImageFormat::Gif => ImageKind::Gif, ImageFormat::WebP => ImageKind::WebP,
        ImageFormat::Pnm => ImageKind::Pnm, ImageFormat::Tiff => ImageKind::Tiff,
        ImageFormat::Tga => ImageKind::Tga, ImageFormat::Dds => ImageKind::Dds,
        ImageFormat::Bmp => ImageKind::Bmp, ImageFormat::Ico => ImageKind::Ico,
        ImageFormat::Hdr => ImageKind::Hdr, ImageFormat::OpenExr => ImageKind::OpenExr,
        ImageFormat::Farbfeld => ImageKind::Farbfeld, ImageFormat::Avif => ImageKind::Avif,
        ImageFormat::Qoi => ImageKind::Qoi, _ => ImageKind::Other,
    })
}

/// Calls `encode` of base64's `STANDARD` engine. The text is a function of
/// the bytes alone and gets the name [`base64_standard`]. The engine panics
/// where the length of the text does not fit in `usize`, which the
/// precondition rules out.
#[verifier::external_body]
pub(crate) fn encode_base64(bytes: &[u8]) -> (text: String)
    requires
        base64_len(bytes@.len()) <= usize::MAX,
    ensures
        text@ == base64_standard(bytes@),
{
    STANDARD.encode(bytes)
}

/// Calls `uuid::Uuid::new_v4` and hands the UUID out as the 128-bit number
/// it is. The number is drawn from the operating system's random source, so
/// all that is promised is what every version-4 UUID has: its version and
/// variant bits. Two calls may return the same number.
#[verifier::external_body]
pub(crate) fn new_uuid() -> (uuid: u128)
    ensures
        is_random_uuid(uuid),
{
    uuid::Uuid::new_v4().as_u128()
}

} // verus!
