use vstd::prelude::*;
use crate::text::{eq_ignore_ascii_case, str_eq_ignore_ascii_case};
use crate::paths::{extension, spec_extension};

verus! {

/// The encoded image formats the tool can name by file extension. The set
/// and the extension table below mirror what the codec crate recognizes.
#[derive(Clone, Copy, Debug, PartialEq, Eq, Structural)]
pub enum ImgFormat {
    Png,
    Jpeg,
    Gif,
    WebP,
    Pnm,
    Tiff,
    Tga,
    Dds,
    Bmp,
    Ico,
    Hdr,
    OpenExr,
    Farbfeld,
    Avif,
    Qoi,
}

/// The format a file extension names, up to ASCII case.
pub open spec fn spec_format_of_ext(e: Seq<char>) -> Option<ImgFormat> {
    if eq_ignore_ascii_case(e, "avif"@) {
        Some(ImgFormat::Avif)
    } else if eq_ignore_ascii_case(e, "jpg"@) || eq_ignore_ascii_case(e, "jpeg"@)
        || eq_ignore_ascii_case(e, "jfif"@) {
        Some(ImgFormat::Jpeg)
    } else if eq_ignore_ascii_case(e, "png"@) || eq_ignore_ascii_case(e, "apng"@) {
        Some(ImgFormat::Png)
    } else if eq_ignore_ascii_case(e, "gif"@) {
        Some(ImgFormat::Gif)
    } else if eq_ignore_ascii_case(e, "webp"@) {
        Some(ImgFormat::WebP)
    } else if eq_ignore_ascii_case(e, "tif"@) || eq_ignore_ascii_case(e, "tiff"@) {
        Some(ImgFormat::Tiff)
    } else if eq_ignore_ascii_case(e, "tga"@) {
        Some(ImgFormat::Tga)
    } else if eq_ignore_ascii_case(e, "dds"@) {
        Some(ImgFormat::Dds)
    } else if eq_ignore_ascii_case(e, "bmp"@) {
        Some(ImgFormat::Bmp)
    } else if eq_ignore_ascii_case(e, "ico"@) {
        Some(ImgFormat::Ico)
    } else if eq_ignore_ascii_case(e, "hdr"@) {
        Some(ImgFormat::Hdr)
    } else if eq_ignore_ascii_case(e, "exr"@) {
        Some(ImgFormat::OpenExr)
    } else if eq_ignore_ascii_case(e, "pbm"@) || eq_ignore_ascii_case(e, "pam"@)
        || eq_ignore_ascii_case(e, "ppm"@) || eq_ignore_ascii_case(e, "pgm"@)
        || eq_ignore_ascii_case(e, "pnm"@) {
        Some(ImgFormat::Pnm)
    } else if eq_ignore_ascii_case(e, "ff"@) {
        Some(ImgFormat::Farbfeld)
    } else if eq_ignore_ascii_case(e, "qoi"@) {
        Some(ImgFormat::Qoi)
    } else {
        None
    }
}

/// Looks an extension up in the format table, folding ASCII case.
pub fn format_from_extension(e: &str) -> (r: Option<ImgFormat>)
    ensures
        r == spec_format_of_ext(e@),
{
    if str_eq_ignore_ascii_case(e, "avif") {
        Some(ImgFormat::Avif)
    } else if str_eq_ignore_ascii_case(e, "jpg") || str_eq_ignore_ascii_case(e, "jpeg")
        || str_eq_ignore_ascii_case(e, "jfif") {
        Some(ImgFormat::Jpeg)
    } else if str_eq_ignore_ascii_case(e, "png") || str_eq_ignore_ascii_case(e, "apng") {
        Some(ImgFormat::Png)
    } else if str_eq_ignore_ascii_case(e, "gif") {
        Some(ImgFormat::Gif)
    } else if str_eq_ignore_ascii_case(e, "webp") {
        Some(ImgFormat::WebP)
    } else if str_eq_ignore_ascii_case(e, "tif") || str_eq_ignore_ascii_case(e, "tiff") {
        Some(ImgFormat::Tiff)
    } else if str_eq_ignore_ascii_case(e, "tga") {
        Some(ImgFormat::Tga)
    } else if str_eq_ignore_ascii_case(e, "dds") {
        Some(ImgFormat::Dds)
    } else if str_eq_ignore_ascii_case(e, "bmp") {
        Some(ImgFormat::Bmp)
    } else if str_eq_ignore_ascii_case(e, "ico") {
        Some(ImgFormat::Ico)
    } else if str_eq_ignore_ascii_case(e, "hdr") {
        Some(ImgFormat::Hdr)
    } else if str_eq_ignore_ascii_case(e, "exr") {
        Some(ImgFormat::OpenExr)
    } else if str_eq_ignore_ascii_case(e, "pbm") || str_eq_ignore_ascii_case(e, "pam")
        || str_eq_ignore_ascii_case(e, "ppm") || str_eq_ignore_ascii_case(e, "pgm")
        || str_eq_ignore_ascii_case(e, "pnm") {
        Some(ImgFormat::Pnm)
    } else if str_eq_ignore_ascii_case(e, "ff") {
        Some(ImgFormat::Farbfeld)
    } else if str_eq_ignore_ascii_case(e, "qoi") {
        Some(ImgFormat::Qoi)
    } else {
        None
    }
}

/// The format a path's file extension names, when it has one the table
/// knows.
pub open spec fn spec_format_of_path(p: Seq<char>) -> Option<ImgFormat> {
    match spec_extension(p) {
        Some(e) => spec_format_of_ext(e),
        None => None,
    }
}

/// Reads the format off a path's file extension.
pub fn format_of_path(p: &str) -> (r: Option<ImgFormat>)
    ensures
        r == spec_format_of_path(p@),
{
    match extension(p) {
        Some(e) => format_from_extension(e.as_str()),
        None => None,
    }
}

} // verus!
