//! The conversion pipeline: resize step, output format, encoding, and the
//! metadata line.
use crate::formats::{format_name_choice, kind_name, kind_from_name, kind_target, target_of_kind, FormatChoice, ImageKind, Target};
use crate::geometry::{plan_of, plan_positive, plan_resize, positive_request, GeometryError, ResizePlan};
use crate::formats::kind_named;
use crate::imaging::{
    buffer_fits, decode, decoded_image, exact_resized, fill_resized, thumbnailed, within_resized, encode_avif, encode_ico, encode_jpeg, encode_png, fill_exact,
    fill_span, fit_shape, header_size, ico_encoding, jpeg_encoding, pixel_height, pixel_width, png_encoding,
    probe_dimensions, resize_exact, resize_to_fill, resize_within, rgb_bytes, rgb_of, rgba_bytes, rgba_of,
    sniff_name, sniffed_name, thumbnail,
};
use crate::options::{Config, ConfigView};
use crate::text::{decimal_chars, decimal_text, same_text};
use image::DynamicImage;
use vstd::prelude::*;

verus! {

/// Why a conversion failed.
pub enum ConvertError {
    /// The input could not be decoded.
    Decode,
    /// The encoder for this format failed.
    Encode(Target),
    /// The input's format could not be recognised.
    UnknownFormat,
    /// The output format, by name, cannot be written.
    Unsupported(String),
    /// `Cover` needs both width and height.
    CoverNeedsBoth,
    /// The decoded image has no pixels.
    EmptyImage,
    /// A pixel buffer of the requested size would not fit in memory.
    TooLarge,
}

pub open spec fn encoder_name(t: Target) -> Seq<char> {
    match t {
        Target::Jpeg => "jpeg"@,
        Target::Png => "png"@,
        Target::WebP => "webp"@,
        Target::Avif => "avif"@,
        Target::Ico => "icon"@,
    }
}

/// The one-line diagnostic of each conversion error.
pub open spec fn convert_error_text(e: ConvertError) -> Seq<char> {
    match e {
        ConvertError::Decode => "failed to decode image"@,
        ConvertError::Encode(t) => "failed to encode "@ + encoder_name(t),
        ConvertError::UnknownFormat => "failed to guess image format"@,
        ConvertError::Unsupported(n) => "unsupported format: "@ + n@,
        ConvertError::CoverNeedsBoth => "--cover requires both --width and --height"@,
        ConvertError::EmptyImage => "image has no pixels"@,
        ConvertError::TooLarge => "requested image size is too large"@,
    }
}

impl ConvertError {
    pub fn message(&self) -> (r: String)
        ensures
            r@ == convert_error_text(*self),
    {
        match self {
            ConvertError::Decode => String::from_str("failed to decode image"),
            ConvertError::Encode(t) => {
                let mut s = String::from_str("failed to encode ");
                let n = match t {
                    Target::Jpeg => "jpeg",
                    Target::Png => "png",
                    Target::WebP => "webp",
                    Target::Avif => "avif",
                    Target::Ico => "icon",
                };
                s.append(n);
                s
            },
            ConvertError::UnknownFormat => String::from_str("failed to guess image format"),
            ConvertError::Unsupported(n) => {
                let mut s = String::from_str("unsupported format: ");
                s.append(n.as_str());
                s
            },
            ConvertError::CoverNeedsBoth => String::from_str("--cover requires both --width and --height"),
            ConvertError::EmptyImage => String::from_str("image has no pixels"),
            ConvertError::TooLarge => String::from_str("requested image size is too large"),
        }
    }
}

/// A configuration as the parser builds it: positive dimensions, quality in `1..=100`.
pub open spec fn valid_config(c: ConfigView) -> bool {
    positive_request(c.width, c.height) && 1 <= c.quality <= 100
}

/// The output format: the explicit name if given, else the sniffed input format.
pub open spec fn format_outcome(requested: Option<Seq<char>>, sniffed: Option<ImageKind>, r: Result<Target, ConvertError>) -> bool {
    match requested {
        Some(name) => match format_name_choice(name) {
            FormatChoice::Write(t) => r == Ok::<Target, ConvertError>(t),
            FormatChoice::Unsupported(n) => r matches Err(ConvertError::Unsupported(m)) && m@ == n,
        },
        None => match sniffed {
            None => r matches Err(ConvertError::UnknownFormat),
            Some(k) => match target_of_kind(k) {
                Some(t) => r == Ok::<Target, ConvertError>(t),
                None => r matches Err(ConvertError::Unsupported(m)) && m@ == kind_name(k),
            },
        },
    }
}

/// Chooses the output format.
pub fn select_format(requested: &Option<String>, sniffed: Option<ImageKind>) -> (r: Result<Target, ConvertError>)
    ensures
        format_outcome(
            match requested {
                Some(s) => Some(s@),
                None => None,
            },
            sniffed,
            r,
        ),
{
    match requested {
        Some(name) => {
            let n = name.as_str();
            if same_text(n, "jpg") || same_text(n, "jpeg") {
                Ok(Target::Jpeg)
            } else if same_text(n, "png") {
                Ok(Target::Png)
            } else if same_text(n, "webp") {
                Ok(Target::WebP)
            } else if same_text(n, "avif") {
                Ok(Target::Avif)
            } else if same_text(n, "ico") {
                Ok(Target::Ico)
            } else if same_text(n, "gif") {
                Err(ConvertError::Unsupported(String::from_str(ImageKind::Gif.name())))
            } else {
                Err(ConvertError::Unsupported(name.clone()))
            }
        },
        None => match sniffed {
            None => Err(ConvertError::UnknownFormat),
            Some(k) => match kind_target(k) {
                Some(t) => Ok(t),
                None => Err(ConvertError::Unsupported(String::from_str(k.name()))),
            },
        },
    }
}

/// The size of the image after a resize step, as far as the step fixes it.
pub open spec fn resize_outcome(p: ResizePlan, ow: u32, oh: u32, rw: u32, rh: u32) -> bool {
    match p {
        ResizePlan::Keep => rw == ow && rh == oh,
        ResizePlan::Exact(w, h) => rw == w && rh == h,
        ResizePlan::Fill(w, h) => rw <= w && rh <= h && (fill_exact(ow, oh, w, h) ==> rw == w && rh == h),
        ResizePlan::Fit(w, h) => 1 <= rw <= w && 1 <= rh <= h && fit_shape(ow, oh, w, h, rw, rh),
        ResizePlan::Shrink(w, h) => 1 <= rw <= w && 1 <= rh <= h && rw <= ow && rh <= oh && fit_shape(
            ow,
            oh,
            w,
            h,
            rw,
            rh,
        ),
    }
}

/// Every pixel buffer that the step allocates fits in memory.
pub open spec fn plan_fits(p: ResizePlan, ow: u32, oh: u32) -> bool {
    match p {
        ResizePlan::Keep => true,
        ResizePlan::Exact(w, h) => buffer_fits(ow as int, h as int) && buffer_fits(w as int, h as int),
        ResizePlan::Fit(w, h) => buffer_fits(ow as int, h as int) && buffer_fits(w as int, h as int),
        ResizePlan::Shrink(w, h) => buffer_fits(w as int, h as int),
        ResizePlan::Fill(w, h) => buffer_fits(ow as int, fill_span(ow, oh, w, h).1) && buffer_fits(
            fill_span(ow, oh, w, h).0,
            fill_span(ow, oh, w, h).1,
        ),
    }
}

/// A `Shrink` step is only chosen for a source larger than its target.
pub open spec fn plan_shrinks(p: ResizePlan, ow: u32, oh: u32) -> bool {
    p matches ResizePlan::Shrink(w, h) ==> (w < ow || h < oh)
}

/// Decides `buffer_fits`.
pub fn fits_in_memory(w: u64, h: u64) -> (r: bool)
    ensures
        r == buffer_fits(w as int, h as int),
{
    assert((w as int) * (h as int) <= (u64::MAX as int) * (u64::MAX as int)) by (nonlinear_arith)
        requires
            w <= u64::MAX,
            h <= u64::MAX,
    ;
    assert((w as int) * (h as int) >= 0) by (nonlinear_arith);
    let area: u128 = (w as u128) * (h as u128);
    area <= (usize::MAX as u128) / 4
}

/// Decides `plan_fits`.
pub fn plan_fits_in_memory(p: ResizePlan, ow: u32, oh: u32) -> (r: bool)
    requires
        ow >= 1,
        oh >= 1,
    ensures
        r == plan_fits(p, ow, oh),
{
    match p {
        ResizePlan::Keep => true,
        ResizePlan::Exact(w, h) => fits_in_memory(ow as u64, h as u64) && fits_in_memory(w as u64, h as u64),
        ResizePlan::Fit(w, h) => fits_in_memory(ow as u64, h as u64) && fits_in_memory(w as u64, h as u64),
        ResizePlan::Shrink(w, h) => fits_in_memory(w as u64, h as u64),
        ResizePlan::Fill(w, h) => {
            assert((ow as int) * (h as int) <= 0xffff_ffffint * 0xffff_ffffint) by (nonlinear_arith)
                requires
                    ow <= 0xffff_ffff,
                    h <= 0xffff_ffff,
            ;
            assert((oh as int) * (w as int) <= 0xffff_ffffint * 0xffff_ffffint) by (nonlinear_arith)
                requires
                    oh <= 0xffff_ffff,
                    w <= 0xffff_ffff,
            ;
            let sw0: u64 = (ow as u64) * (h as u64) / (oh as u64) + 1;
            let sh0: u64 = (oh as u64) * (w as u64) / (ow as u64) + 1;
            let sw: u64 = if sw0 > w as u64 { sw0 } else { w as u64 };
            let sh: u64 = if sh0 > h as u64 { sh0 } else { h as u64 };
            assert(fill_span(ow, oh, w, h) == (sw as int, sh as int));
            fits_in_memory(ow as u64, sh) && fits_in_memory(sw, sh)
        },
    }
}

/// The image that a resize step makes of `img`; `Keep` hands back `img` itself.
pub open spec fn resized(p: ResizePlan, img: DynamicImage) -> DynamicImage {
    match p {
        ResizePlan::Keep => img,
        ResizePlan::Exact(w, h) => exact_resized(img, w, h),
        ResizePlan::Fill(w, h) => fill_resized(img, w, h),
        ResizePlan::Fit(w, h) => within_resized(img, w, h),
        ResizePlan::Shrink(w, h) => thumbnailed(img, w, h),
    }
}

/// Applies a resize step.
pub fn apply_plan(img: DynamicImage, p: ResizePlan) -> (r: DynamicImage)
    requires
        pixel_width(img) >= 1,
        pixel_height(img) >= 1,
        plan_positive(p),
        plan_fits(p, pixel_width(img), pixel_height(img)),
        plan_shrinks(p, pixel_width(img), pixel_height(img)),
    ensures
        resize_outcome(p, pixel_width(img), pixel_height(img), pixel_width(r), pixel_height(r)),
        r == resized(p, img),
{
    match p {
        ResizePlan::Keep => img,
        ResizePlan::Exact(w, h) => resize_exact(&img, w, h),
        ResizePlan::Fill(w, h) => resize_to_fill(&img, w, h),
        ResizePlan::Fit(w, h) => resize_within(&img, w, h),
        ResizePlan::Shrink(w, h) => thumbnail(&img, w, h),
    }
}

/// The encoded output, or for WebP the RGBA pixels that the native encoder takes.
pub enum Body {
    Encoded(Vec<u8>),
    Rgba { pixels: Vec<u8>, stride: i32, quality: u8 },
}

/// A converted image: its format, final size and body.
pub struct Converted {
    pub target: Target,
    pub width: u32,
    pub height: u32,
    pub body: Body,
}

/// The RGBA bytes of the pixels of `out`, four per pixel, row by row.
pub open spec fn rgba_pixels(out: DynamicImage) -> Seq<u8> {
    rgba_of(out).take(4 * (pixel_width(out) as int) * (pixel_height(out) as int))
}

/// The RGB bytes of the pixels of `out`, three per pixel, row by row.
pub open spec fn rgb_pixels(out: DynamicImage) -> Seq<u8> {
    rgb_of(out).take(3 * (pixel_width(out) as int) * (pixel_height(out) as int))
}

/// The bytes that the JPEG, PNG or ICO encoder writes for an image at
/// `quality`, or `None` where it fails. AVIF and WebP are not named here.
pub open spec fn encoding_of(t: Target, out: DynamicImage, quality: u8) -> Option<Seq<u8>> {
    let w = pixel_width(out);
    let h = pixel_height(out);
    match t {
        Target::Jpeg => jpeg_encoding(rgb_pixels(out), w, h, quality),
        Target::Png => png_encoding(rgba_pixels(out), w, h),
        Target::Ico => ico_encoding(rgba_pixels(out), w, h),
        _ => None,
    }
}

/// The largest size whose RGBA rows and height the native WebP encoder takes.
pub open spec fn webp_fits(w: u32, h: u32) -> bool {
    4 * (w as int) <= i32::MAX && h as int <= i32::MAX
}

/// `r` is a successful conversion of `out` to `t` whose body satisfies `body_ok`.
pub open spec fn converted_as(t: Target, out: DynamicImage, r: Result<Converted, ConvertError>, body_ok: spec_fn(Body) -> bool) -> bool {
    match r {
        Ok(o) => o.target == t && o.width == pixel_width(out) && o.height == pixel_height(out) && body_ok(o.body),
        Err(_) => false,
    }
}

/// What encoding the resized image `out` as `t` under `c` yields.
pub open spec fn encoding_outcome(t: Target, out: DynamicImage, c: ConfigView, r: Result<Converted, ConvertError>) -> bool {
    let w = pixel_width(out);
    let h = pixel_height(out);
    if !buffer_fits(w as int, h as int) {
        r matches Err(ConvertError::TooLarge)
    } else if t == Target::WebP {
        if !webp_fits(w, h) {
            r matches Err(ConvertError::TooLarge)
        } else {
            converted_as(
                t,
                out,
                r,
                |b: Body|
                    match b {
                        Body::Rgba { pixels, stride, quality } => pixels@ == rgba_pixels(out) && stride as int == 4
                            * w as int && quality == c.quality,
                        Body::Encoded(_) => false,
                    },
            )
        }
    } else if t == Target::Avif {
        converted_as(t, out, r, |b: Body| b is Encoded) || r matches Err(ConvertError::Encode(Target::Avif))
    } else {
        match encoding_of(t, out, c.quality) {
            Some(bytes) => converted_as(
                t,
                out,
                r,
                |b: Body|
                    match b {
                        Body::Encoded(v) => v@ == bytes,
                        Body::Rgba { .. } => false,
                    },
            ),
            None => r matches Err(ConvertError::Encode(e)) && e == t,
        }
    }
}

/// The output format that `c` and the sniffed input format select.
pub open spec fn chosen_format(requested: Option<Seq<char>>, sniffed: Option<ImageKind>) -> Option<Target> {
    match requested {
        Some(name) => match format_name_choice(name) {
            FormatChoice::Write(t) => Some(t),
            FormatChoice::Unsupported(_) => None,
        },
        None => match sniffed {
            Some(k) => target_of_kind(k),
            None => None,
        },
    }
}

/// What converting the decoded image `img` under `c` yields; `sniffed` is the
/// input's format. The source passes through unchanged where no resize applies.
pub open spec fn conversion_outcome(
    img: DynamicImage,
    sniffed: Option<ImageKind>,
    c: ConfigView,
    r: Result<Converted, ConvertError>,
) -> bool {
    let ow = pixel_width(img);
    let oh = pixel_height(img);
    if ow == 0 || oh == 0 {
        r matches Err(ConvertError::EmptyImage)
    } else {
        match plan_of(c.width, c.height, c.fit, ow, oh) {
            Err(GeometryError::CoverNeedsBoth) => r matches Err(ConvertError::CoverNeedsBoth),
            Ok(p) => if !plan_fits(p, ow, oh) {
                r matches Err(ConvertError::TooLarge)
            } else {
                match chosen_format(c.format, sniffed) {
                    None => r matches Err(e) && format_outcome(c.format, sniffed, Err::<Target, ConvertError>(e)),
                    Some(t) => {
                        let out = resized(p, img);
                        &&& resize_outcome(p, ow, oh, pixel_width(out), pixel_height(out))
                        &&& encoding_outcome(t, out, c, r)
                    },
                }
            },
        }
    }
}

/// Resizes and encodes a decoded image under `c`; `sniffed` is the input's
/// format, used when `c` names none.
pub fn convert_image(img: DynamicImage, sniffed: Option<ImageKind>, c: &Config) -> (r: Result<Converted, ConvertError>)
    requires
        valid_config(c@),
    ensures
        conversion_outcome(img, sniffed, c@, r),
{
    let ow = img.width();
    let oh = img.height();
    if ow == 0 || oh == 0 {
        return Err(ConvertError::EmptyImage);
    }
    let p = match plan_resize(c.width, c.height, c.fit, ow, oh) {
        Ok(p) => p,
        Err(GeometryError::CoverNeedsBoth) => return Err(ConvertError::CoverNeedsBoth),
    };
    if !plan_fits_in_memory(p, ow, oh) {
        return Err(ConvertError::TooLarge);
    }
    let out = apply_plan(img, p);
    let target = match select_format(&c.format, sniffed) {
        Ok(t) => t,
        Err(e) => return Err(e),
    };
    encode_as(target, &out, c.quality)
}

/// Encodes a resized image as `t`.
pub fn encode_as(t: Target, out: &DynamicImage, quality: u8) -> (r: Result<Converted, ConvertError>)
    requires
        1 <= quality <= 100,
    ensures
        forall|c: ConfigView| c.quality == quality ==> encoding_outcome(t, *out, c, r),
{
    let w = out.width();
    let h = out.height();
    if !fits_in_memory(w as u64, h as u64) {
        return Err(ConvertError::TooLarge);
    }
    assert((w as int) * (h as int) >= 0) by (nonlinear_arith);
    let n3: usize = w as usize * h as usize * 3;
    let n4: usize = w as usize * h as usize * 4;
    assert(n3 as int == 3 * (w as int) * (h as int)) by (nonlinear_arith)
        requires
            n3 as int == (w as int) * (h as int) * 3,
    ;
    assert(n4 as int == 4 * (w as int) * (h as int)) by (nonlinear_arith)
        requires
            n4 as int == (w as int) * (h as int) * 4,
    ;
    let body = match t {
        Target::Jpeg => {
            let mut px = rgb_bytes(out);
            px.truncate(n3);
            match encode_jpeg(&px, w, h, quality) {
                Ok(b) => Body::Encoded(b),
                Err(_) => return Err(ConvertError::Encode(t)),
            }
        },
        Target::Png => {
            let mut px = rgba_bytes(out);
            px.truncate(n4);
            match encode_png(&px, w, h) {
                Ok(b) => Body::Encoded(b),
                Err(_) => return Err(ConvertError::Encode(t)),
            }
        },
        Target::Avif => {
            let mut px = rgba_bytes(out);
            px.truncate(n4);
            match encode_avif(&px, w, h, quality) {
                Ok(b) => Body::Encoded(b),
                Err(_) => return Err(ConvertError::Encode(t)),
            }
        },
        Target::Ico => {
            let mut px = rgba_bytes(out);
            px.truncate(n4);
            match encode_ico(&px, w, h) {
                Ok(b) => Body::Encoded(b),
                Err(_) => return Err(ConvertError::Encode(t)),
            }
        },
        Target::WebP => {
            if w > 0x1fff_ffff || h > 0x7fff_ffff {
                return Err(ConvertError::TooLarge);
            }
            let mut pixels = rgba_bytes(out);
            pixels.truncate(n4);
            Body::Rgba { pixels, stride: (w * 4) as i32, quality }
        },
    };
    Ok(Converted { target: t, width: w, height: h, body })
}

/// The format recognised in the leading bytes, as a kind.
pub open spec fn sniffed_kind(bytes: Seq<u8>) -> Option<ImageKind> {
    match sniffed_name(bytes) {
        Some(n) => Some(kind_named(n)),
        None => None,
    }
}

fn sniff_kind(input: &Vec<u8>) -> (r: Option<ImageKind>)
    ensures
        r == sniffed_kind(input@),
{
    match sniff_name(input) {
        Some(n) => Some(kind_from_name(n.as_str())),
        None => None,
    }
}

/// Decodes `input` and converts it under `c`: `Decode` exactly when the
/// input does not decode, else the outcome for the decoded image and the
/// sniffed input format.
pub fn convert(input: &Vec<u8>, c: &Config) -> (r: Result<Converted, ConvertError>)
    requires
        valid_config(c@),
    ensures
        match decoded_image(input@) {
            None => r matches Err(ConvertError::Decode),
            Some(img) => conversion_outcome(img, sniffed_kind(input@), c@, r),
        },
{
    let img = match decode(input) {
        Ok(img) => img,
        Err(_) => return Err(ConvertError::Decode),
    };
    let sniffed = sniff_kind(input);
    convert_image(img, sniffed, c)
}

/// The metadata line of an encoded image, or why there is none.
pub open spec fn description_of(bytes: Seq<u8>) -> Result<Seq<char>, ()> {
    match sniffed_kind(bytes) {
        None => Err(()),
        Some(k) => match header_size(bytes) {
            Some((w, h)) => Ok(info_text(k, w, h)),
            None => match decoded_image(bytes) {
                Some(img) => Ok(info_text(k, pixel_width(img), pixel_height(img))),
                None => Err(()),
            },
        },
    }
}

/// The metadata line: format name, then `width` x `height`, then a newline.
pub open spec fn info_text(k: ImageKind, w: u32, h: u32) -> Seq<char> {
    kind_name(k) + " "@ + decimal_chars(w as nat) + "x"@ + decimal_chars(h as nat) + "\n"@
}

/// Writes the metadata line.
pub fn info_line(k: ImageKind, w: u32, h: u32) -> (r: String)
    ensures
        r@ == info_text(k, w, h),
{
    let mut s = String::from_str(k.name());
    s.append(" ");
    let ws = decimal_text(w);
    s.append(ws.as_str());
    s.append("x");
    let hs = decimal_text(h);
    s.append(hs.as_str());
    s.append("\n");
    s
}

/// The metadata line of an encoded image: its sniffed format and its size,
/// read from the header where the decoder gives it, else by decoding.
pub fn describe(input: &Vec<u8>) -> (r: Result<String, ConvertError>)
    ensures
        sniffed_kind(input@) is None ==> r matches Err(ConvertError::UnknownFormat),
        sniffed_kind(input@) is Some ==> match description_of(input@) {
            Ok(line) => r matches Ok(s) && s@ == line,
            Err(_) => r matches Err(ConvertError::Decode),
        },
{
    let k = match sniff_kind(input) {
        Some(k) => k,
        None => return Err(ConvertError::UnknownFormat),
    };
    match probe_dimensions(input) {
        Some((w, h)) => Ok(info_line(k, w, h)),
        None => match decode(input) {
            Ok(img) => Ok(info_line(k, img.width(), img.height())),
            Err(_) => Err(ConvertError::Decode),
        },
    }
}

} // verus!
