//! The boundary with the `image` crate: its decoded image type, the size of
//! an image, and the decode, resize and encode calls that the pipeline makes.
use image::{DynamicImage, ImageError};
use vstd::prelude::*;

verus! {

#[verifier::external_type_specification]
#[verifier::external_body]
pub struct ExDynamicImage(image::DynamicImage);

#[verifier::external_type_specification]
#[verifier::external_body]
pub struct ExImageError(image::ImageError);


/// Width in pixels of a decoded image's pixel grid.
pub uninterp spec fn pixel_width(img: DynamicImage) -> u32;

/// Height in pixels of a decoded image's pixel grid.
pub uninterp spec fn pixel_height(img: DynamicImage) -> u32;

/// Relies on `DynamicImage::width`: the width of the pixel grid.
pub assume_specification[ image::DynamicImage::width ](img: &DynamicImage) -> (r: u32)
    ensures
        r == pixel_width(*img),
;

/// Relies on `DynamicImage::height`: the height of the pixel grid.
pub assume_specification[ image::DynamicImage::height ](img: &DynamicImage) -> (r: u32)
    ensures
        r == pixel_height(*img),
;

/// A pixel buffer of `w` by `h` pixels with up to four channels has a length
/// that fits in `usize`; the image crate panics when it does not.
pub open spec fn buffer_fits(w: int, h: int) -> bool {
    w * h * 4 <= usize::MAX
}

/// An upper bound on the intermediate size of a fill resize: the side that
/// fills its bound is scaled past the other bound by at most this much.
pub open spec fn fill_span(ow: u32, oh: u32, w: u32, h: u32) -> (int, int) {
    let sw = (ow as int) * (h as int) / (oh as int) + 1;
    let sh = (oh as int) * (w as int) / (ow as int) + 1;
    (if sw > w { sw } else { w as int }, if sh > h { sh } else { h as int })
}

/// The fill resize needs no side longer than `u32::MAX`.
pub open spec fn fill_exact(ow: u32, oh: u32, w: u32, h: u32) -> bool {
    (ow as int) * (h as int) <= (u32::MAX as int) * (oh as int) && (oh as int) * (w as int)
        <= (u32::MAX as int) * (ow as int)
}

/// The `Debug` name of the format that `image::guess_format` recognises in
/// the leading bytes, if any.
pub uninterp spec fn sniffed_name(bytes: Seq<u8>) -> Option<Seq<char>>;

/// The size that `ImageReader::into_dimensions` reads from the header, where
/// the format is recognised and its decoder gives it.
pub uninterp spec fn header_size(bytes: Seq<u8>) -> Option<(u32, u32)>;

/// The image that `image::load_from_memory` decodes, or `None` where it fails.
pub uninterp spec fn decoded_image(bytes: Seq<u8>) -> Option<DynamicImage>;

/// Relies on `image::guess_format` and the `Debug` form of
/// `image::ImageFormat`: the name of the format recognised from the bytes.
#[verifier::external_body]
pub(crate) fn sniff_name(bytes: &Vec<u8>) -> (r: Option<String>)
    ensures
        r matches Some(s) ==> sniffed_name(bytes@) == Some(s@),
        r is None ==> sniffed_name(bytes@) is None,
{
    image::guess_format(bytes).ok().map(|f| format!("{f:?}"))
}

/// Relies on `ImageReader::with_guessed_format` and `into_dimensions`: the
/// size read from the header, without decoding the pixels.
#[verifier::external_body]
pub(crate) fn probe_dimensions(bytes: &Vec<u8>) -> (r: Option<(u32, u32)>)
    ensures
        r == header_size(bytes@),
{
    let reader = image::ImageReader::new(std::io::Cursor::new(bytes)).with_guessed_format().ok()?;
    reader.into_dimensions().ok()
}

/// Relies on `image::load_from_memory`: decodes an image whose format is
/// sniffed from its bytes.
#[verifier::external_body]
pub(crate) fn decode(bytes: &Vec<u8>) -> (r: Result<DynamicImage, ImageError>)
    ensures
        r matches Ok(img) ==> decoded_image(bytes@) == Some(img),
        r is Err ==> decoded_image(bytes@) is None,
{
    image::load_from_memory(bytes)
}

/// The result of `resize_dimensions` without fill: one side meets its bound,
/// and the other keeps the source's aspect ratio to within one pixel.
pub open spec fn fit_shape(ow: u32, oh: u32, w: u32, h: u32, rw: u32, rh: u32) -> bool {
    ||| rw == w && -(ow as int) <= (rh as int) * (ow as int) - (oh as int) * (w as int) <= ow as int
    ||| rh == h && -(oh as int) <= (rw as int) * (oh as int) - (ow as int) * (h as int) <= oh as int
}

/// What `DynamicImage::resize_exact` with the Lanczos3 filter returns.
pub uninterp spec fn exact_resized(img: DynamicImage, w: u32, h: u32) -> DynamicImage;

/// What `DynamicImage::resize` with the Lanczos3 filter returns.
pub uninterp spec fn within_resized(img: DynamicImage, w: u32, h: u32) -> DynamicImage;

/// What `DynamicImage::thumbnail` returns.
pub uninterp spec fn thumbnailed(img: DynamicImage, w: u32, h: u32) -> DynamicImage;

/// What `DynamicImage::resize_to_fill` with the Lanczos3 filter returns.
pub uninterp spec fn fill_resized(img: DynamicImage, w: u32, h: u32) -> DynamicImage;

/// Relies on `DynamicImage::resize_exact` with the Lanczos3 filter: the
/// result has exactly the requested size.
#[verifier::external_body]
pub(crate) fn resize_exact(img: &DynamicImage, w: u32, h: u32) -> (r: DynamicImage)
    requires
        w >= 1,
        h >= 1,
        buffer_fits(pixel_width(*img) as int, h as int),
        buffer_fits(w as int, h as int),
    ensures
        r == exact_resized(*img, w, h),
        pixel_width(r) == w,
        pixel_height(r) == h,
{
    img.resize_exact(w, h, image::imageops::FilterType::Lanczos3)
}

/// Relies on `DynamicImage::resize` with the Lanczos3 filter: the result is
/// scaled to fit within the requested size, at least one pixel each way; the
/// size comes from `resize_dimensions`, which rounds the scaled source size.
#[verifier::external_body]
pub(crate) fn resize_within(img: &DynamicImage, w: u32, h: u32) -> (r: DynamicImage)
    requires
        w >= 1,
        h >= 1,
        pixel_width(*img) >= 1,
        pixel_height(*img) >= 1,
        buffer_fits(pixel_width(*img) as int, h as int),
        buffer_fits(w as int, h as int),
    ensures
        r == within_resized(*img, w, h),
        1 <= pixel_width(r) <= w,
        1 <= pixel_height(r) <= h,
        fit_shape(pixel_width(*img), pixel_height(*img), w, h, pixel_width(r), pixel_height(r)),
{
    img.resize(w, h, image::imageops::FilterType::Lanczos3)
}

/// Relies on `DynamicImage::thumbnail`: the result is scaled to fit within
/// the requested size, and is no larger than the source when the requested
/// size is smaller than the source in either direction.
#[verifier::external_body]
pub(crate) fn thumbnail(img: &DynamicImage, w: u32, h: u32) -> (r: DynamicImage)
    requires
        w >= 1,
        h >= 1,
        pixel_width(*img) >= 1,
        pixel_height(*img) >= 1,
        buffer_fits(w as int, h as int),
    ensures
        r == thumbnailed(*img, w, h),
        1 <= pixel_width(r) <= w,
        1 <= pixel_height(r) <= h,
        fit_shape(pixel_width(*img), pixel_height(*img), w, h, pixel_width(r), pixel_height(r)),
        (w < pixel_width(*img) || h < pixel_height(*img)) ==> (pixel_width(r) <= pixel_width(*img)
            && pixel_height(r) <= pixel_height(*img)),
{
    img.thumbnail(w, h)
}

/// Relies on `DynamicImage::resize_to_fill` with the Lanczos3 filter: the
/// image is scaled to cover the requested size and cropped to it. The crop
/// never exceeds the requested size, and meets it exactly when no side of
/// the scaled image would pass `u32::MAX`.
#[verifier::external_body]
pub(crate) fn resize_to_fill(img: &DynamicImage, w: u32, h: u32) -> (r: DynamicImage)
    requires
        w >= 1,
        h >= 1,
        pixel_width(*img) >= 1,
        pixel_height(*img) >= 1,
        buffer_fits(pixel_width(*img) as int, fill_span(pixel_width(*img), pixel_height(*img), w, h).1),
        buffer_fits(
            fill_span(pixel_width(*img), pixel_height(*img), w, h).0,
            fill_span(pixel_width(*img), pixel_height(*img), w, h).1,
        ),
    ensures
        r == fill_resized(*img, w, h),
        pixel_width(r) <= w,
        pixel_height(r) <= h,
        fill_exact(pixel_width(*img), pixel_height(*img), w, h) ==> (pixel_width(r) == w
            && pixel_height(r) == h),
{
    img.resize_to_fill(w, h, image::imageops::FilterType::Lanczos3)
}

/// The pixels of an image as 8-bit RGBA, row by row.
pub uninterp spec fn rgba_of(img: DynamicImage) -> Seq<u8>;

/// The pixels of an image as 8-bit RGB, row by row.
pub uninterp spec fn rgb_of(img: DynamicImage) -> Seq<u8>;

/// What `JpegEncoder::write_image` writes for RGB pixels, or `None` where it fails.
pub uninterp spec fn jpeg_encoding(rgb: Seq<u8>, w: u32, h: u32, quality: u8) -> Option<Seq<u8>>;

/// What `PngEncoder::write_image` writes for RGBA pixels, or `None` where it fails.
pub uninterp spec fn png_encoding(rgba: Seq<u8>, w: u32, h: u32) -> Option<Seq<u8>>;

/// What `IcoEncoder::write_image` writes for RGBA pixels, or `None` where it fails.
pub uninterp spec fn ico_encoding(rgba: Seq<u8>, w: u32, h: u32) -> Option<Seq<u8>>;

/// Relies on `DynamicImage::to_rgba8` and `ImageBuffer::into_raw`: the pixels
/// as 8-bit RGBA, row by row, four bytes per pixel. An image already in RGBA
/// keeps its buffer, which may run past the last pixel.
#[verifier::external_body]
pub(crate) fn rgba_bytes(img: &DynamicImage) -> (r: Vec<u8>)
    requires
        buffer_fits(pixel_width(*img) as int, pixel_height(*img) as int),
    ensures
        r@ == rgba_of(*img),
        r@.len() >= 4 * (pixel_width(*img) as int) * (pixel_height(*img) as int),
{
    img.to_rgba8().into_raw()
}

/// Relies on `DynamicImage::to_rgb8` and `ImageBuffer::into_raw`: the pixels
/// as 8-bit RGB, row by row, three bytes per pixel. An image already in RGB
/// keeps its buffer, which may run past the last pixel.
#[verifier::external_body]
pub(crate) fn rgb_bytes(img: &DynamicImage) -> (r: Vec<u8>)
    requires
        buffer_fits(pixel_width(*img) as int, pixel_height(*img) as int),
    ensures
        r@ == rgb_of(*img),
        r@.len() >= 3 * (pixel_width(*img) as int) * (pixel_height(*img) as int),
{
    img.to_rgb8().into_raw()
}

/// Relies on `JpegEncoder::new_with_quality`: writes RGB pixels as JPEG.
#[verifier::external_body]
pub(crate) fn encode_jpeg(rgb: &Vec<u8>, w: u32, h: u32, quality: u8) -> (r: Result<Vec<u8>, ImageError>)
    requires
        1 <= quality <= 100,
        rgb@.len() == 3 * (w as int) * (h as int),
    ensures
        r matches Ok(b) ==> jpeg_encoding(rgb@, w, h, quality) == Some(b@),
        r is Err ==> jpeg_encoding(rgb@, w, h, quality) is None,
{
    let mut out: Vec<u8> = Vec::new();
    let enc = image::codecs::jpeg::JpegEncoder::new_with_quality(&mut out, quality);
    let res = image::ImageEncoder::write_image(enc, rgb, w, h, image::ExtendedColorType::Rgb8);
    res.map(|_| out)
}

/// Relies on `PngEncoder`: writes RGBA pixels as PNG.
#[verifier::external_body]
pub(crate) fn encode_png(rgba: &Vec<u8>, w: u32, h: u32) -> (r: Result<Vec<u8>, ImageError>)
    requires
        rgba@.len() == 4 * (w as int) * (h as int),
    ensures
        r matches Ok(b) ==> png_encoding(rgba@, w, h) == Some(b@),
        r is Err ==> png_encoding(rgba@, w, h) is None,
{
    let mut out: Vec<u8> = Vec::new();
    let enc = image::codecs::png::PngEncoder::new(&mut out);
    let res = image::ImageEncoder::write_image(enc, rgba, w, h, image::ExtendedColorType::Rgba8);
    res.map(|_| out)
}

/// Relies on `AvifEncoder::new_with_speed_quality` at speed 5: writes RGBA
/// pixels as AVIF. The encoder splits the work by the machine's thread
/// count, so its bytes are not a function of the pixels alone.
#[verifier::external_body]
pub(crate) fn encode_avif(rgba: &Vec<u8>, w: u32, h: u32, quality: u8) -> (r: Result<Vec<u8>, ImageError>)
    requires
        1 <= quality <= 100,
        rgba@.len() == 4 * (w as int) * (h as int),
{
    let mut out: Vec<u8> = Vec::new();
    let enc = image::codecs::avif::AvifEncoder::new_with_speed_quality(&mut out, 5, quality);
    let res = image::ImageEncoder::write_image(enc, rgba, w, h, image::ExtendedColorType::Rgba8);
    res.map(|_| out)
}

/// Relies on `IcoEncoder`: writes RGBA pixels as an ICO icon; each side
/// must be in `1..=256`.
#[verifier::external_body]
pub(crate) fn encode_ico(rgba: &Vec<u8>, w: u32, h: u32) -> (r: Result<Vec<u8>, ImageError>)
    requires
        rgba@.len() == 4 * (w as int) * (h as int),
    ensures
        r matches Ok(b) ==> ico_encoding(rgba@, w, h) == Some(b@),
        r is Err ==> ico_encoding(rgba@, w, h) is None,
        !(1 <= w <= 256 && 1 <= h <= 256) ==> r is Err,
{
    let mut out: Vec<u8> = Vec::new();
    let enc = image::codecs::ico::IcoEncoder::new(&mut out);
    let res = image::ImageEncoder::write_image(enc, rgba, w, h, image::ExtendedColorType::Rgba8);
    res.map(|_| out)
}

} // verus!
