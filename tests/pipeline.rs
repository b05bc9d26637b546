use image::{DynamicImage, ImageFormat, Rgb, RgbImage};
use reimg::convert::{convert, convert_image, describe, info_line, select_format, Body, ConvertError, Converted};
use reimg::formats::{ImageKind, Target};
use reimg::options::{parse_args, Command, Config};
use std::io::Cursor;

fn encoded(width: u32, height: u32, format: ImageFormat) -> Vec<u8> {
    let img = RgbImage::from_fn(width, height, |x, y| Rgb([(x % 256) as u8, (y % 256) as u8, 128]));
    let mut out = Vec::new();
    DynamicImage::ImageRgb8(img).write_to(&mut Cursor::new(&mut out), format).unwrap();
    out
}

fn photo() -> Vec<u8> {
    encoded(320, 240, ImageFormat::Jpeg)
}

fn config(list: &[&str]) -> Config {
    let args: Vec<String> = list.iter().map(|s| s.to_string()).collect();
    match parse_args(&args) {
        Ok(Command::Run(c)) => c,
        _ => panic!("arguments do not make a run"),
    }
}

fn converted(input: &[u8], list: &[&str]) -> Converted {
    match convert(&input.to_vec(), &config(list)) {
        Ok(c) => c,
        Err(e) => panic!("conversion failed: {}", e.message()),
    }
}

fn bytes_of(c: Converted) -> Vec<u8> {
    match c.body {
        Body::Encoded(b) => b,
        Body::Rgba { .. } => panic!("expected encoded bytes"),
    }
}

fn failure(input: &[u8], list: &[&str]) -> ConvertError {
    match convert(&input.to_vec(), &config(list)) {
        Ok(_) => panic!("expected a failure"),
        Err(e) => e,
    }
}

#[test]
fn test_jpeg_to_jpeg() {
    let out = converted(&photo(), &["-w", "100", "-h", "100", "--cover"]);
    assert_eq!(out.target, Target::Jpeg);
    assert_eq!(describe(&bytes_of(out)).ok().unwrap(), "Jpeg 100x100\n");
}

#[test]
fn test_jpeg_to_png() {
    let out = converted(&photo(), &["-w", "100", "-h", "100", "--cover", "-f", "png"]);
    assert_eq!(out.target, Target::Png);
    assert_eq!(describe(&bytes_of(out)).ok().unwrap(), "Png 100x100\n");
}

#[test]
fn test_jpeg_to_webp() {
    let out = converted(&photo(), &["-w", "100", "-h", "100", "--cover", "-f", "webp"]);
    assert_eq!(out.target, Target::WebP);
    assert_eq!((out.width, out.height), (100, 100));
    match out.body {
        Body::Rgba { pixels, stride, quality } => {
            assert_eq!(pixels.len(), 100 * 100 * 4);
            assert_eq!(stride, 400);
            assert_eq!(quality, 85);
        }
        Body::Encoded(_) => panic!("expected RGBA pixels"),
    }
}

#[test]
fn test_jpeg_to_avif() {
    let out = converted(&photo(), &["-w", "100", "-h", "100", "--cover", "-f", "avif"]);
    assert_eq!(out.target, Target::Avif);
    assert_eq!((out.width, out.height), (100, 100));
    assert!(!bytes_of(out).is_empty());
}

#[test]
fn cover_output_has_the_requested_size() {
    let out = converted(&encoded(200, 50, ImageFormat::Png), &["-w", "30", "-h", "40", "--cover"]);
    assert_eq!((out.width, out.height), (30, 40));
    assert_eq!(describe(&bytes_of(out)).ok().unwrap(), "Png 30x40\n");
}

#[test]
fn width_only_resizes_exactly_at_the_aspect_ratio() {
    let out = converted(&encoded(200, 50, ImageFormat::Png), &["--width", "100"]);
    assert_eq!((out.width, out.height), (100, 25));
}

#[test]
fn contain_fits_within_and_keeps_the_aspect_ratio() {
    let out = converted(&encoded(200, 50, ImageFormat::Png), &["-w", "100", "-h", "100", "--contain"]);
    assert_eq!((out.width, out.height), (100, 25));
}

#[test]
fn scale_down_never_enlarges() {
    let out = converted(&encoded(200, 50, ImageFormat::Png), &["-w", "400", "-h", "400", "--scale-down"]);
    assert_eq!((out.width, out.height), (200, 50));
    let out = converted(&encoded(200, 50, ImageFormat::Png), &["-w", "100", "-h", "400", "--scale-down"]);
    assert_eq!((out.width, out.height), (100, 25));
}

#[test]
fn exact_resize_ignores_the_aspect_ratio() {
    let out = converted(&encoded(200, 50, ImageFormat::Png), &["-w", "20", "-h", "30"]);
    assert_eq!((out.width, out.height), (20, 30));
}

#[test]
fn cover_with_width_only_fails() {
    let e = failure(&photo(), &["-w", "100", "--cover"]);
    assert!(matches!(e, ConvertError::CoverNeedsBoth));
    assert!(e.message().contains("requires both"));
    assert_eq!(e.message(), "--cover requires both --width and --height");
}

#[test]
fn png_round_trip_keeps_the_size() {
    let out = converted(&encoded(37, 21, ImageFormat::Jpeg), &["-f", "png"]);
    let png = bytes_of(out);
    let back = image::load_from_memory(&png).unwrap();
    assert_eq!((back.width(), back.height()), (37, 21));
    assert_eq!(describe(&png).ok().unwrap(), "Png 37x21\n");
}

#[test]
fn unsupported_explicit_format_is_named() {
    let e = failure(&photo(), &["-f", "bmp"]);
    assert_eq!(e.message(), "unsupported format: bmp");
    let e = failure(&photo(), &["-f", "gif"]);
    assert_eq!(e.message(), "unsupported format: Gif");
}

#[test]
fn unsupported_sniffed_format_is_named() {
    let e = failure(&encoded(8, 8, ImageFormat::Bmp), &["-w", "4"]);
    assert_eq!(e.message(), "unsupported format: Bmp");
}

#[test]
fn format_names_select_targets() {
    assert_eq!(select_format(&Some("jpg".to_string()), None).ok(), Some(Target::Jpeg));
    assert_eq!(select_format(&Some("jpeg".to_string()), None).ok(), Some(Target::Jpeg));
    assert_eq!(select_format(&Some("ico".to_string()), Some(ImageKind::Png)).ok(), Some(Target::Ico));
    assert_eq!(select_format(&None, Some(ImageKind::WebP)).ok(), Some(Target::WebP));
    assert!(matches!(select_format(&None, None), Err(ConvertError::UnknownFormat)));
}

#[test]
fn ico_output_is_written() {
    let out = converted(&photo(), &["-w", "32", "-h", "32", "-f", "ico"]);
    assert_eq!(describe(&bytes_of(out)).ok().unwrap(), "Ico 32x32\n");
}

#[test]
fn undecodable_input_fails() {
    let e = failure(b"not an image", &["-w", "10"]);
    assert!(matches!(e, ConvertError::Decode));
    assert_eq!(e.message(), "failed to decode image");
}

#[test]
fn describe_reports_unknown_formats() {
    assert!(matches!(describe(&b"plain text".to_vec()), Err(ConvertError::UnknownFormat)));
    assert_eq!(ConvertError::UnknownFormat.message(), "failed to guess image format");
}

#[test]
fn info_line_formats_name_and_size() {
    assert_eq!(info_line(ImageKind::WebP, 1920, 1080), "WebP 1920x1080\n");
    assert_eq!(info_line(ImageKind::Jpeg, 0, 7), "Jpeg 0x7\n");
    assert_eq!(info_line(ImageKind::Png, 4294967295, 10), "Png 4294967295x10\n");
}

#[test]
fn png_output_ignores_quality() {
    let a = bytes_of(converted(&encoded(40, 30, ImageFormat::Jpeg), &["-f", "png", "-q", "1"]));
    let b = bytes_of(converted(&encoded(40, 30, ImageFormat::Jpeg), &["-f", "png", "-q", "100"]));
    assert_eq!(a, b);
}

#[test]
fn contain_meets_one_side_of_the_box() {
    let out = converted(&encoded(200, 50, ImageFormat::Png), &["-w", "50", "-h", "50", "--cover", "--fit", "contain"]);
    assert_eq!((out.width, out.height), (50, 13));
    let out = converted(&encoded(200, 50, ImageFormat::Png), &["-w", "50", "-h", "50", "--fit", "contain", "--cover"]);
    assert_eq!((out.width, out.height), (50, 50));
}

#[test]
fn error_messages() {
    assert_eq!(ConvertError::Encode(Target::Ico).message(), "failed to encode icon");
    assert_eq!(ConvertError::Encode(Target::Jpeg).message(), "failed to encode jpeg");
    assert_eq!(ConvertError::TooLarge.message(), "requested image size is too large");
}

#[test]
fn oversized_request_is_refused() {
    let e = failure(&encoded(4, 4, ImageFormat::Png), &["-w", "4294967295", "-h", "4294967295"]);
    assert!(matches!(e, ConvertError::TooLarge));
}

#[test]
fn buffer_longer_than_the_image_is_encoded() {
    let img = image::RgbaImage::from_raw(2, 2, vec![200u8; 24]).unwrap();
    let out = match convert_image(DynamicImage::ImageRgba8(img), Some(ImageKind::Png), &config(&["-f", "png"])) {
        Ok(c) => c,
        Err(e) => panic!("conversion failed: {}", e.message()),
    };
    assert_eq!(describe(&bytes_of(out)).ok().unwrap(), "Png 2x2\n");
}

#[test]
fn ico_larger_than_256_fails_to_encode() {
    let e = failure(&encoded(300, 20, ImageFormat::Png), &["-f", "ico"]);
    assert!(matches!(e, ConvertError::Encode(Target::Ico)));
    assert_eq!(e.message(), "failed to encode icon");
}
