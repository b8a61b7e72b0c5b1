use imgtool::format::{format_from_extension, format_of_path, ImgFormat};
use imgtool::text::{parse_u32, str_eq, str_eq_ignore_ascii_case};

#[test]
fn extension_table_maps_the_known_names() {
    assert_eq!(format_from_extension("png"), Some(ImgFormat::Png));
    assert_eq!(format_from_extension("apng"), Some(ImgFormat::Png));
    assert_eq!(format_from_extension("jpg"), Some(ImgFormat::Jpeg));
    assert_eq!(format_from_extension("jpeg"), Some(ImgFormat::Jpeg));
    assert_eq!(format_from_extension("jfif"), Some(ImgFormat::Jpeg));
    assert_eq!(format_from_extension("gif"), Some(ImgFormat::Gif));
    assert_eq!(format_from_extension("webp"), Some(ImgFormat::WebP));
    assert_eq!(format_from_extension("tif"), Some(ImgFormat::Tiff));
    assert_eq!(format_from_extension("tiff"), Some(ImgFormat::Tiff));
    assert_eq!(format_from_extension("tga"), Some(ImgFormat::Tga));
    assert_eq!(format_from_extension("dds"), Some(ImgFormat::Dds));
    assert_eq!(format_from_extension("bmp"), Some(ImgFormat::Bmp));
    assert_eq!(format_from_extension("ico"), Some(ImgFormat::Ico));
    assert_eq!(format_from_extension("hdr"), Some(ImgFormat::Hdr));
    assert_eq!(format_from_extension("exr"), Some(ImgFormat::OpenExr));
    assert_eq!(format_from_extension("pbm"), Some(ImgFormat::Pnm));
    assert_eq!(format_from_extension("pam"), Some(ImgFormat::Pnm));
    assert_eq!(format_from_extension("ppm"), Some(ImgFormat::Pnm));
    assert_eq!(format_from_extension("pgm"), Some(ImgFormat::Pnm));
    assert_eq!(format_from_extension("pnm"), Some(ImgFormat::Pnm));
    assert_eq!(format_from_extension("ff"), Some(ImgFormat::Farbfeld));
    assert_eq!(format_from_extension("avif"), Some(ImgFormat::Avif));
    assert_eq!(format_from_extension("qoi"), Some(ImgFormat::Qoi));
}

#[test]
fn extension_table_folds_ascii_case() {
    assert_eq!(format_from_extension("PNG"), Some(ImgFormat::Png));
    assert_eq!(format_from_extension("Jpeg"), Some(ImgFormat::Jpeg));
    assert_eq!(format_from_extension("TiFf"), Some(ImgFormat::Tiff));
}

#[test]
fn unknown_extensions_map_to_nothing() {
    assert_eq!(format_from_extension(""), None);
    assert_eq!(format_from_extension("txt"), None);
    assert_eq!(format_from_extension("pngx"), None);
}

#[test]
fn format_of_path_reads_the_file_extension() {
    assert_eq!(format_of_path("dir/pic.PNG"), Some(ImgFormat::Png));
    assert_eq!(format_of_path("dir/pic"), None);
    assert_eq!(format_of_path("dir.png/pic"), None);
    assert_eq!(format_of_path(".png"), None);
}

#[test]
fn parse_u32_reads_plain_numerals() {
    assert_eq!(parse_u32("0"), Some(0));
    assert_eq!(parse_u32("42"), Some(42));
    assert_eq!(parse_u32("+42"), Some(42));
    assert_eq!(parse_u32("4294967295"), Some(4294967295));
}

#[test]
fn parse_u32_rejects_everything_else() {
    assert_eq!(parse_u32(""), None);
    assert_eq!(parse_u32("+"), None);
    assert_eq!(parse_u32("-1"), None);
    assert_eq!(parse_u32("12a"), None);
    assert_eq!(parse_u32(" 12"), None);
    assert_eq!(parse_u32("4294967296"), None);
    assert_eq!(parse_u32("99999999999999999999"), None);
}

#[test]
fn str_eq_is_plain_equality() {
    assert!(str_eq("abc", "abc"));
    assert!(!str_eq("abc", "abd"));
    assert!(!str_eq("abc", "abcd"));
    assert!(str_eq("", ""));
}

#[test]
fn case_insensitive_equality_folds_only_ascii() {
    assert!(str_eq_ignore_ascii_case("PnG", "pNg"));
    assert!(!str_eq_ignore_ascii_case("png", "pn"));
    assert!(!str_eq_ignore_ascii_case("png", "pnq"));
}
