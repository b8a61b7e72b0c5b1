use imgtool::codec::EncodeErrorKind;
use imgtool::dimension::Dimension;
use imgtool::ops::{
    classify_encode_error, convert_bytes, convert_precheck, resize_bytes, size_decision,
    SizeDecision,
};
use imgtool::outcome::Outcome;

fn encoded_bytes(width: u32, height: u32, format: image::ImageFormat) -> Vec<u8> {
    let buffer = image::ImageBuffer::from_pixel(width, height, image::Rgba([10u8, 20, 30, 255]));
    let img = image::DynamicImage::ImageRgba8(buffer);
    let mut cursor = std::io::Cursor::new(Vec::new());
    img.write_to(&mut cursor, format).unwrap();
    cursor.into_inner()
}

fn decoded_size(bytes: &[u8]) -> (u32, u32) {
    let img = image::load_from_memory(bytes).unwrap();
    (img.width(), img.height())
}

#[test]
fn resize_resamples_to_the_exact_target() {
    let bytes = encoded_bytes(4, 4, image::ImageFormat::Png);
    let d = Dimension { height: 2, width: 3 };
    let step = resize_bytes(&bytes, "pic.png", &d, None, false);
    assert_eq!(step.outcome, Outcome::Success);
    let (dest, data) = step.write.expect("a resample must write");
    assert_eq!(dest, "pic.png");
    assert_eq!(decoded_size(&data), (3, 2));
}

#[test]
fn resize_at_target_size_without_destination_writes_nothing() {
    let bytes = encoded_bytes(4, 4, image::ImageFormat::Png);
    let d = Dimension { height: 4, width: 4 };
    let step = resize_bytes(&bytes, "pic.png", &d, None, false);
    assert_eq!(step.outcome, Outcome::AlreadySatisfied);
    assert!(step.write.is_none());
}

#[test]
fn resize_at_target_size_with_destination_copies_bytes_unchanged() {
    let bytes = encoded_bytes(4, 4, image::ImageFormat::Png);
    let d = Dimension { height: 4, width: 4 };
    let step = resize_bytes(&bytes, "pic.png", &d, Some("out/pic.png"), false);
    assert_eq!(step.outcome, Outcome::AlreadySatisfied);
    let (dest, data) = step.write.expect("the copy case must write");
    assert_eq!(dest, "out/pic.png");
    assert_eq!(data, bytes);
}

#[test]
fn resizing_twice_settles_on_the_first_result() {
    let bytes = encoded_bytes(5, 7, image::ImageFormat::Png);
    let d = Dimension { height: 2, width: 2 };
    let first = resize_bytes(&bytes, "pic.png", &d, None, false);
    assert_eq!(first.outcome, Outcome::Success);
    let (_, once) = first.write.unwrap();
    let second = resize_bytes(&once, "pic.png", &d, None, false);
    assert_eq!(second.outcome, Outcome::AlreadySatisfied);
    assert!(second.write.is_none());
}

#[test]
fn resize_of_garbage_is_a_read_failure() {
    let bytes = vec![1u8, 2, 3, 4];
    let d = Dimension { height: 2, width: 2 };
    let step = resize_bytes(&bytes, "pic.png", &d, None, false);
    assert_eq!(step.outcome, Outcome::ReadFailure);
    assert!(step.write.is_none());
}

#[test]
fn resize_guess_of_unknown_content_is_a_guess_failure() {
    let bytes = vec![1u8, 2, 3, 4];
    let d = Dimension { height: 2, width: 2 };
    let step = resize_bytes(&bytes, "pic.png", &d, None, true);
    assert_eq!(step.outcome, Outcome::FormatGuessFailure);
    assert!(step.write.is_none());
}

#[test]
fn resize_guess_ignores_a_wrong_extension() {
    let bytes = encoded_bytes(4, 4, image::ImageFormat::Png);
    let d = Dimension { height: 2, width: 2 };
    let lied = resize_bytes(&bytes, "pic.bmp", &d, None, false);
    assert_eq!(lied.outcome, Outcome::ReadFailure);
    let guessed = resize_bytes(&bytes, "pic.bmp", &d, None, true);
    assert_eq!(guessed.outcome, Outcome::Success);
}

#[test]
fn resize_to_unknown_destination_extension_is_a_write_failure() {
    let bytes = encoded_bytes(4, 4, image::ImageFormat::Png);
    let d = Dimension { height: 2, width: 2 };
    let step = resize_bytes(&bytes, "pic.png", &d, Some("out/pic.txt"), false);
    assert_eq!(step.outcome, Outcome::WriteFailure);
    assert!(step.write.is_none());
}

#[test]
fn resize_without_guess_needs_a_known_extension() {
    let bytes = encoded_bytes(4, 4, image::ImageFormat::Png);
    let d = Dimension { height: 2, width: 2 };
    let step = resize_bytes(&bytes, "pic.dat", &d, None, false);
    assert_eq!(step.outcome, Outcome::ReadFailure);
    assert!(step.write.is_none());
    let bare = resize_bytes(&bytes, "pic", &d, None, false);
    assert_eq!(bare.outcome, Outcome::ReadFailure);
}

#[test]
fn convert_without_guess_needs_a_known_extension() {
    let bytes = encoded_bytes(4, 4, image::ImageFormat::Png);
    let step = convert_bytes(&bytes, "pic.dat", "bmp", "pic.bmp", false);
    assert_eq!(step.outcome, Outcome::ReadFailure);
    assert!(step.write.is_none());
}

#[test]
fn encode_errors_split_into_convert_and_save_failures() {
    assert_eq!(classify_encode_error(EncodeErrorKind::Encoding), Outcome::EncodeFailure);
    assert_eq!(classify_encode_error(EncodeErrorKind::Other), Outcome::WriteFailure);
}

#[test]
fn size_decision_never_resamples_a_matching_file() {
    let d = Dimension { height: 4, width: 4 };
    assert_eq!(size_decision(&d, 4, 4, false), SizeDecision::Keep);
    assert_eq!(size_decision(&d, 4, 4, true), SizeDecision::CopyOriginal);
    assert_eq!(size_decision(&d, 4, 5, false), SizeDecision::Resample);
    assert_eq!(size_decision(&d, 5, 4, true), SizeDecision::Resample);
}

#[test]
fn convert_precheck_fires_only_without_guessing() {
    assert!(convert_precheck("pic.png", "png", false));
    assert!(convert_precheck("pic.PNG", "png", false));
    assert!(convert_precheck("pic.jpg", "jpeg", false));
    assert!(!convert_precheck("pic.png", "bmp", false));
    assert!(!convert_precheck("pic", "png", false));
    assert!(!convert_precheck("pic.png", "png", true));
}

#[test]
fn convert_same_format_fails_fast_and_writes_nothing() {
    let bytes = encoded_bytes(4, 4, image::ImageFormat::Png);
    let step = convert_bytes(&bytes, "pic.png", "png", "pic.png", false);
    assert_eq!(step.outcome, Outcome::AlreadySatisfied);
    assert!(step.write.is_none());
}

#[test]
fn convert_reencodes_into_the_target_format() {
    let bytes = encoded_bytes(4, 4, image::ImageFormat::Png);
    let step = convert_bytes(&bytes, "pic.png", "bmp", "pic.bmp", false);
    assert_eq!(step.outcome, Outcome::Success);
    let (dest, data) = step.write.expect("a conversion must write");
    assert_eq!(dest, "pic.bmp");
    assert_eq!(image::guess_format(&data).unwrap(), image::ImageFormat::Bmp);
    assert_eq!(decoded_size(&data), (4, 4));
}

#[test]
fn convert_with_guess_converts_despite_matching_extension() {
    let bmp_content = encoded_bytes(4, 4, image::ImageFormat::Bmp);
    let step = convert_bytes(&bmp_content, "pic.png", "png", "pic.png", true);
    assert_eq!(step.outcome, Outcome::Success);
    let (_, data) = step.write.unwrap();
    assert_eq!(image::guess_format(&data).unwrap(), image::ImageFormat::Png);
}

#[test]
fn convert_of_garbage_is_a_read_failure() {
    let bytes = vec![9u8, 9, 9, 9];
    let step = convert_bytes(&bytes, "pic.png", "bmp", "pic.bmp", false);
    assert_eq!(step.outcome, Outcome::ReadFailure);
    assert!(step.write.is_none());
}

#[test]
fn convert_guess_of_unknown_content_is_a_guess_failure() {
    let bytes = vec![9u8, 9, 9, 9];
    let step = convert_bytes(&bytes, "pic.png", "bmp", "pic.bmp", true);
    assert_eq!(step.outcome, Outcome::FormatGuessFailure);
    assert!(step.write.is_none());
}
