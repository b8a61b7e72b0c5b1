use vstd::prelude::*;
use crate::format::spec_format_of_ext;

verus! {

/// The codec crate's decoded-image type, opaque to the verifier.
#[verifier::external_type_specification]
#[verifier::external_body]
pub struct ExDynamicImage(image::DynamicImage);

/// The codec crate's format tag, opaque to the verifier.
#[verifier::external_type_specification]
#[verifier::external_body]
pub struct ExImageFormat(image::ImageFormat);

/// How an in-memory encode failed: in the encoder itself, or anywhere else.
#[derive(Clone, Copy, Debug, PartialEq, Eq, Structural)]
pub enum EncodeErrorKind {
    Encoding,
    Other,
}

// Whether the content sniff finds a known format in these bytes. Names the
// success of image::guess_format, which depends on the bytes alone.
pub uninterp spec fn spec_sniff_ok(bytes: Seq<u8>) -> bool;

// The pixel size (width, height) that sniffing and decoding these bytes
// yields, or None when that fails. Names the result of
// image::load_from_memory, which depends on the bytes alone.
pub uninterp spec fn spec_guessed_decode(bytes: Seq<u8>) -> Option<(u32, u32)>;

// The pixel size (width, height) of these bytes decoded as the format the
// extension names, or None when the extension names no format or the bytes
// do not decode as it. Depends on the bytes and the extension alone.
pub uninterp spec fn spec_ext_decode(bytes: Seq<u8>, ext: Seq<char>) -> Option<(u32, u32)>;

/// Relies on image::ImageFormat::from_extension: the format a file
/// extension names, folding ASCII case; `None` for an unknown extension.
/// Its extension table is the one `spec_format_of_ext` writes out.
#[verifier::external_body]
pub(crate) fn format_for_extension(e: &str) -> (r: Option<image::ImageFormat>)
    ensures
        r is Some <==> spec_format_of_ext(e@) is Some,
{
    image::ImageFormat::from_extension(e)
}

/// Relies on image::guess_format: detects an encoded format from the magic
/// bytes at the head of the buffer; errors when no known signature matches.
#[verifier::external_body]
pub(crate) fn sniff_ok(bytes: &Vec<u8>) -> (r: bool)
    ensures
        r == spec_sniff_ok(bytes@),
{
    image::guess_format(bytes.as_slice()).is_ok()
}

/// Relies on image::load_from_memory: guesses the format from the buffer's
/// content, then decodes it. Hands back the image with its pixel size,
/// read off with image::DynamicImage::width and height.
#[verifier::external_body]
pub(crate) fn decode_sniffing(bytes: &Vec<u8>) -> (r: Option<(image::DynamicImage, u32, u32)>)
    ensures
        match r {
            Some((_, w, h)) => spec_guessed_decode(bytes@) == Some((w, h)),
            None => spec_guessed_decode(bytes@) is None,
        },
{
    let img = image::load_from_memory(bytes.as_slice()).ok()?;
    let w = img.width();
    let h = img.height();
    Some((img, w, h))
}

/// Relies on image::ImageFormat::from_extension and
/// image::load_from_memory_with_format: decodes the buffer as the format
/// the extension names; nothing for an unknown extension or for bytes that
/// do not decode as that format. Hands back the image with its pixel size,
/// read off with image::DynamicImage::width and height.
#[verifier::external_body]
pub(crate) fn decode_as(bytes: &Vec<u8>, e: &str) -> (r: Option<(image::DynamicImage, u32, u32)>)
    ensures
        match r {
            Some((_, w, h)) => spec_ext_decode(bytes@, e@) == Some((w, h)),
            None => spec_ext_decode(bytes@, e@) is None,
        },
{
    let f = image::ImageFormat::from_extension(e)?;
    let img = image::load_from_memory_with_format(bytes.as_slice(), f).ok()?;
    let w = img.width();
    let h = img.height();
    Some((img, w, h))
}

/// Relies on image::DynamicImage::resize_exact with nearest-neighbor
/// filtering: resamples to exactly the given width and height, ignoring
/// aspect ratio.
#[verifier::external_body]
pub(crate) fn resize_exact_nearest(img: &image::DynamicImage, width: u32, height: u32) -> (r:
    image::DynamicImage) {
    img.resize_exact(width, height, image::imageops::FilterType::Nearest)
}

/// Relies on image::DynamicImage::write_to: encodes the image in the given
/// format into an in-memory buffer. An `ImageError::Encoding` from it is
/// reported apart from every other error kind.
#[verifier::external_body]
pub(crate) fn encode_to_bytes(img: &image::DynamicImage, f: image::ImageFormat) -> (r: Result<
    Vec<u8>,
    EncodeErrorKind,
>) {
    let mut cursor = std::io::Cursor::new(Vec::new());
    match img.write_to(&mut cursor, f) {
        Ok(()) => Ok(cursor.into_inner()),
        Err(image::ImageError::Encoding(_)) => Err(EncodeErrorKind::Encoding),
        Err(_) => Err(EncodeErrorKind::Other),
    }
}

} // verus!
