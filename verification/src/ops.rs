use vstd::prelude::*;
use vstd::string::StringExecFns;
use crate::codec::{
    decode_as, decode_sniffing, encode_to_bytes, format_for_extension, resize_exact_nearest,
    sniff_ok, spec_ext_decode, spec_guessed_decode, spec_sniff_ok, EncodeErrorKind,
};
use crate::dimension::Dimension;
use crate::format::{format_from_extension, format_of_path, spec_format_of_ext, spec_format_of_path};
use crate::outcome::{is_failure, Outcome};
use crate::paths::{extension, spec_extension};

verus! {

/// What one file's operation asks of its surroundings: perhaps a write, and
/// the outcome to report. A failed write overrides the outcome with
/// `WriteFailure`; without a write request the outcome stands as given.
pub struct FileStep {
    /// The write to perform: destination path and the bytes to put there.
    pub write: Option<(String, Vec<u8>)>,
    /// The outcome to report once any requested write has succeeded.
    pub outcome: Outcome,
}

/// What a resize does once the decoded size is known: leave the file
/// alone, copy it unchanged to the destination, or resample it.
#[derive(Clone, Copy, Debug, PartialEq, Eq, Structural)]
pub enum SizeDecision {
    Keep,
    CopyOriginal,
    Resample,
}

pub open spec fn spec_size_decision(
    d: Dimension,
    width: u32,
    height: u32,
    has_dest: bool,
) -> SizeDecision {
    if width == d.width && height == d.height {
        if has_dest {
            SizeDecision::CopyOriginal
        } else {
            SizeDecision::Keep
        }
    } else {
        SizeDecision::Resample
    }
}

/// Decides a resize from the decoded size alone: a file already at the
/// target size is never resampled — it is left untouched, or copied
/// unchanged when an explicit destination asks for a copy.
pub fn size_decision(d: &Dimension, width: u32, height: u32, has_dest: bool) -> (r: SizeDecision)
    ensures
        r == spec_size_decision(*d, width, height, has_dest),
{
    if d.is_satisfied_by(width, height) {
        if has_dest {
            SizeDecision::CopyOriginal
        } else {
            SizeDecision::Keep
        }
    } else {
        SizeDecision::Resample
    }
}

/// A file already at the target size is never resampled: in place it is
/// kept as it stands, and with an explicit destination it is only copied.
/// Resampling happens exactly when the size differs.
pub proof fn lemma_satisfied_size_never_resampled(d: Dimension, width: u32, height: u32, has_dest: bool)
    ensures
        (width == d.width && height == d.height && !has_dest) ==> spec_size_decision(
            d,
            width,
            height,
            has_dest,
        ) is Keep,
        (width == d.width && height == d.height && has_dest) ==> spec_size_decision(
            d,
            width,
            height,
            has_dest,
        ) is CopyOriginal,
        (spec_size_decision(d, width, height, has_dest) is Resample) <==> !(width == d.width
            && height == d.height),
{
}

/// The sniff stage of an operation passes: under format guessing the
/// content sniff must find a format; without guessing there is no sniff.
pub open spec fn spec_sniff_passes(bytes: Seq<u8>, guess: bool) -> bool {
    !guess || spec_sniff_ok(bytes)
}

/// The pixel size the applicable decode yields for one file: under format
/// guessing the sniffed decode of the content; otherwise the decode as the
/// format the source extension names, which fails when the extension names
/// none.
pub open spec fn spec_decode_size(bytes: Seq<u8>, source: Seq<char>, guess: bool) -> Option<
    (u32, u32),
> {
    if guess {
        spec_guessed_decode(bytes)
    } else {
        match spec_extension(source) {
            Some(e) => spec_ext_decode(bytes, e),
            None => None,
        }
    }
}

/// Decodes one file's bytes as the operation asks: sniffing the content
/// under format guessing (the sniff failure is reported apart), else as the
/// format the source extension names.
fn decode_for_operation(bytes: &Vec<u8>, source: &str, guess: bool) -> (r: Option<
    (image::DynamicImage, u32, u32),
>)
    requires
        spec_sniff_passes(bytes@, guess),
    ensures
        match r {
            Some((_, w, h)) => spec_decode_size(bytes@, source@, guess) == Some((w, h)),
            None => spec_decode_size(bytes@, source@, guess) is None,
        },
{
    if guess {
        decode_sniffing(bytes)
    } else {
        match extension(source) {
            Some(e) => decode_as(bytes, e.as_str()),
            None => None,
        }
    }
}

/// Resizes one file's bytes to the target dimension.
///
/// Under format guessing a failed content sniff is reported apart, and the
/// decode goes by the sniffed format; otherwise the decode goes by the
/// format the source extension names, and fails — a read failure — when it
/// names none. The decoded size then drives the outcome through
/// `size_decision`: a file already at the target size is reported
/// `AlreadySatisfied`, copied byte-for-byte when a destination was given
/// and left untouched when none was. Otherwise the image is resampled and
/// the re-encoded bytes are directed at the destination, or back at the
/// source; a destination whose extension names no format cannot be encoded
/// and is a write failure.
pub fn resize_bytes(
    bytes: &Vec<u8>,
    source: &str,
    d: &Dimension,
    dest: Option<&str>,
    guess: bool,
) -> (r: FileStep)
    ensures
        match r.write {
            Some((w, _)) => w@ == match dest {
                Some(o) => o@,
                None => source@,
            },
            None => true,
        },
        r.outcome is AlreadySatisfied ==> match dest {
            Some(o) => match r.write {
                Some((w, data)) => w@ == o@ && data@ == bytes@,
                None => false,
            },
            None => r.write is None,
        },
        r.outcome is Success ==> r.write is Some,
        is_failure(r.outcome) ==> r.write is None,
        !(r.outcome is EncodeFailure),
        (r.outcome is FormatGuessFailure) <==> (guess && !spec_sniff_ok(bytes@)),
        (r.outcome is ReadFailure) <==> (spec_sniff_passes(bytes@, guess) && spec_decode_size(
            bytes@,
            source@,
            guess,
        ) is None),
        (r.outcome is AlreadySatisfied) <==> (spec_sniff_passes(bytes@, guess) && spec_decode_size(
            bytes@,
            source@,
            guess,
        ) == Some((d.width, d.height))),
        (spec_sniff_passes(bytes@, guess) && spec_decode_size(bytes@, source@, guess) is Some
            && spec_decode_size(bytes@, source@, guess) != Some((d.width, d.height))) ==> (
        r.outcome is Success || r.outcome is WriteFailure),
        (spec_sniff_passes(bytes@, guess) && spec_decode_size(bytes@, source@, guess) is Some
            && spec_decode_size(bytes@, source@, guess) != Some((d.width, d.height))
            && spec_format_of_path(
            match dest {
                Some(o) => o@,
                None => source@,
            },
        ) is None) ==> r.outcome is WriteFailure,
{
    if guess && !sniff_ok(bytes) {
        return FileStep { write: None, outcome: Outcome::FormatGuessFailure };
    }
    let (img, width, height) = match decode_for_operation(bytes, source, guess) {
        Some(t) => t,
        None => {
            return FileStep { write: None, outcome: Outcome::ReadFailure };
        },
    };
    match size_decision(d, width, height, dest.is_some()) {
        SizeDecision::Keep => FileStep { write: None, outcome: Outcome::AlreadySatisfied },
        SizeDecision::CopyOriginal => {
            let o = dest.unwrap();
            let data = bytes.clone();
            proof {
                assert forall|i: int| 0 <= i < bytes@.len() implies data@[i] == bytes@[i] by {
                    assert(cloned::<u8>(bytes[i], data[i]));
                }
                assert(data@ =~= bytes@);
            }
            FileStep {
                write: Some((String::from_str(o), data)),
                outcome: Outcome::AlreadySatisfied,
            }
        },
        SizeDecision::Resample => {
            let resized = resize_exact_nearest(&img, d.width, d.height);
            let dst: String = match dest {
                Some(o) => String::from_str(o),
                None => String::from_str(source),
            };
            let out_fmt = match extension(dst.as_str()) {
                Some(e) => format_for_extension(e.as_str()),
                None => None,
            };
            match out_fmt {
                Some(f) => match encode_to_bytes(&resized, f) {
                    Ok(data) => FileStep { write: Some((dst, data)), outcome: Outcome::Success },
                    Err(_) => FileStep { write: None, outcome: Outcome::WriteFailure },
                },
                None => FileStep { write: None, outcome: Outcome::WriteFailure },
            }
        },
    }
}

/// A conversion without format guessing finds the source already in the
/// target format by its extension.
pub open spec fn spec_convert_satisfied(
    source: Seq<char>,
    target_ext: Seq<char>,
    guess: bool,
) -> bool {
    !guess && spec_format_of_path(source) == spec_format_of_ext(target_ext)
}

/// True exactly when a conversion without format guessing would find the
/// source already in the target format by its extension — the case that is
/// reported before any byte of the file is read.
pub fn convert_precheck(source: &str, target_ext: &str, guess: bool) -> (r: bool)
    requires
        spec_format_of_ext(target_ext@) is Some,
    ensures
        r == spec_convert_satisfied(source@, target_ext@, guess),
{
    if guess {
        return false;
    }
    let src_fmt = format_of_path(source);
    let tgt = format_from_extension(target_ext);
    match (src_fmt, tgt) {
        (Some(a), Some(b)) => a == b,
        _ => false,
    }
}

/// How a failed in-memory encode is reported: the encoder's own failure is
/// `EncodeFailure`; any other kind is `WriteFailure`.
pub fn classify_encode_error(k: EncodeErrorKind) -> (r: Outcome)
    ensures
        r == if k is Encoding {
            Outcome::EncodeFailure
        } else {
            Outcome::WriteFailure
        },
{
    match k {
        EncodeErrorKind::Encoding => Outcome::EncodeFailure,
        EncodeErrorKind::Other => Outcome::WriteFailure,
    }
}

/// Converts one file's bytes to the format the target extension names.
///
/// Without format guessing, a source whose extension already names the
/// target format is reported `AlreadySatisfied` and nothing is written —
/// exactly then. Otherwise the bytes are decoded (by the sniffed format
/// when guessing, else by the format the source extension names) and
/// re-encoded to the destination path; the encoder's own failure is
/// reported as `EncodeFailure`, any other as `WriteFailure`.
pub fn convert_bytes(
    bytes: &Vec<u8>,
    source: &str,
    target_ext: &str,
    dest: &str,
    guess: bool,
) -> (r: FileStep)
    requires
        spec_format_of_ext(target_ext@) is Some,
    ensures
        (r.outcome is AlreadySatisfied) <==> spec_convert_satisfied(source@, target_ext@, guess),
        r.outcome is AlreadySatisfied ==> r.write is None,
        r.outcome is Success ==> match r.write {
            Some((w, _)) => w@ == dest@,
            None => false,
        },
        is_failure(r.outcome) ==> r.write is None,
        (r.outcome is FormatGuessFailure) <==> (guess && !spec_sniff_ok(bytes@)),
        (r.outcome is ReadFailure) <==> (!spec_convert_satisfied(source@, target_ext@, guess)
            && spec_sniff_passes(bytes@, guess) && spec_decode_size(bytes@, source@, guess) is None),
        (!spec_convert_satisfied(source@, target_ext@, guess) && spec_sniff_passes(bytes@, guess)
            && spec_decode_size(bytes@, source@, guess) is Some) ==> (r.outcome is Success
            || r.outcome is EncodeFailure || r.outcome is WriteFailure),
{
    if !guess {
        let src_fmt = format_of_path(source);
        let tgt = format_from_extension(target_ext);
        let same = match (src_fmt, tgt) {
            (Some(a), Some(b)) => a == b,
            _ => false,
        };
        if same {
            return FileStep { write: None, outcome: Outcome::AlreadySatisfied };
        }
    }
    if guess && !sniff_ok(bytes) {
        return FileStep { write: None, outcome: Outcome::FormatGuessFailure };
    }
    let (img, _, _) = match decode_for_operation(bytes, source, guess) {
        Some(t) => t,
        None => {
            return FileStep { write: None, outcome: Outcome::ReadFailure };
        },
    };
    let f = format_for_extension(target_ext).unwrap();
    match encode_to_bytes(&img, f) {
        Ok(data) => FileStep {
            write: Some((String::from_str(dest), data)),
            outcome: Outcome::Success,
        },
        Err(k) => FileStep { write: None, outcome: classify_encode_error(k) },
    }
}

} // verus!
