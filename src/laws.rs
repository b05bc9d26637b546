//! Properties of the pipeline, stated over its specification and proved.
use crate::convert::{
    chosen_format, conversion_outcome, resized, encoding_outcome, resize_outcome, valid_config, Body, Converted, ConvertError,
};
use crate::formats::{ImageKind, Target};
use crate::geometry::plan_of;
use crate::imaging::{fill_exact, fit_shape, pixel_height, pixel_width};
use image::DynamicImage;
use crate::options::{
    default_config, dimension_of, fit_of, parse_from, parse_spec, quality_of, CommandView, ConfigView, FitMode,
};
use vstd::prelude::*;

verus! {

/// The resized image behind a successful conversion, and what it satisfies.
proof fn resized_image(img: DynamicImage, sniffed: Option<ImageKind>, c: ConfigView, r: Result<Converted, ConvertError>) -> (out: DynamicImage)
    requires
        conversion_outcome(img, sniffed, c, r),
        r is Ok,
    ensures
        pixel_width(img) >= 1,
        pixel_height(img) >= 1,
        plan_of(c.width, c.height, c.fit, pixel_width(img), pixel_height(img)) is Ok,
        chosen_format(c.format, sniffed) is Some,
        resize_outcome(
            plan_of(c.width, c.height, c.fit, pixel_width(img), pixel_height(img))->Ok_0,
            pixel_width(img),
            pixel_height(img),
            pixel_width(out),
            pixel_height(out),
        ),
        plan_of(c.width, c.height, c.fit, pixel_width(img), pixel_height(img))->Ok_0 is Keep ==> out == img,
        encoding_outcome(chosen_format(c.format, sniffed)->Some_0, out, c, r),
        r->Ok_0.width == pixel_width(out),
        r->Ok_0.height == pixel_height(out),
{
    resized(plan_of(c.width, c.height, c.fit, pixel_width(img), pixel_height(img))->Ok_0, img)
}

/// The encoded bytes of a successful conversion, if it carries any.
pub open spec fn encoded_bytes(r: Result<Converted, ConvertError>) -> Option<Seq<u8>> {
    match r {
        Ok(o) => match o.body {
            Body::Encoded(b) => Some(b@),
            Body::Rgba { .. } => None,
        },
        Err(_) => None,
    }
}

/// PNG and ICO output does not depend on the quality setting: two
/// conversions of one image that differ only in quality write the same bytes.
pub proof fn png_and_ico_ignore_quality(
    img: DynamicImage,
    sniffed: Option<ImageKind>,
    c1: ConfigView,
    c2: ConfigView,
    r1: Result<Converted, ConvertError>,
    r2: Result<Converted, ConvertError>,
)
    requires
        c2 == (ConfigView { quality: c2.quality, ..c1 }),
        conversion_outcome(img, sniffed, c1, r1),
        conversion_outcome(img, sniffed, c2, r2),
        chosen_format(c1.format, sniffed) == Some(Target::Png) || chosen_format(c1.format, sniffed) == Some(
            Target::Ico,
        ),
    ensures
        r1 is Ok <==> r2 is Ok,
        r1 is Ok ==> encoded_bytes(r1) is Some && encoded_bytes(r1) == encoded_bytes(r2),
{
}

/// A `Cover` conversion with both dimensions given yields exactly the
/// requested size, wherever the filled image needs no side beyond `u32::MAX`.
pub proof fn cover_yields_requested_size(
    img: DynamicImage,
    w: u32,
    h: u32,
    sniffed: Option<ImageKind>,
    c: ConfigView,
    r: Result<Converted, ConvertError>,
)
    requires
        c.width == Some(w),
        c.height == Some(h),
        c.fit == Some(FitMode::Cover),
        fill_exact(pixel_width(img), pixel_height(img), w, h),
        conversion_outcome(img, sniffed, c, r),
        r is Ok,
    ensures
        r->Ok_0.width == w,
        r->Ok_0.height == h,
{
    resized_image(img, sniffed, c, r);
}

/// `ScaleDown` never makes an image larger than its source in either
/// direction, and encodes the source itself when the requested size is at
/// least the source's in both directions.
pub proof fn scale_down_never_grows(
    img: DynamicImage,
    sniffed: Option<ImageKind>,
    c: ConfigView,
    r: Result<Converted, ConvertError>,
)
    requires
        valid_config(c),
        c.fit == Some(FitMode::ScaleDown),
        conversion_outcome(img, sniffed, c, r),
        r is Ok,
    ensures
        r->Ok_0.width <= pixel_width(img),
        r->Ok_0.height <= pixel_height(img),
        (c.width matches Some(w) && c.height matches Some(h) && w >= pixel_width(img) && h >= pixel_height(img))
            ==> encoding_outcome(chosen_format(c.format, sniffed)->Some_0, img, c, r),
{
    resized_image(img, sniffed, c, r);
}

/// A `Contain` conversion with both dimensions given never exceeds the
/// requested size, meets it on one side, and keeps the source's aspect ratio
/// to within one pixel on the other.
pub proof fn contain_stays_within_request(
    img: DynamicImage,
    w: u32,
    h: u32,
    sniffed: Option<ImageKind>,
    c: ConfigView,
    r: Result<Converted, ConvertError>,
)
    requires
        c.width == Some(w),
        c.height == Some(h),
        c.fit == Some(FitMode::Contain),
        conversion_outcome(img, sniffed, c, r),
        r is Ok,
    ensures
        r->Ok_0.width <= w,
        r->Ok_0.height <= h,
        fit_shape(pixel_width(img), pixel_height(img), w, h, r->Ok_0.width, r->Ok_0.height),
{
    resized_image(img, sniffed, c, r);
}

proof fn parse_from_keeps_valid(c: ConfigView, args: Seq<Seq<char>>, i: int)
    requires
        valid_config(c),
    ensures
        parse_from(c, args, i) matches Ok(CommandView::Run(d)) ==> valid_config(d),
    decreases args.len() - i,
{
    if 0 <= i < args.len() {
        parse_from_keeps_valid(ConfigView { show_metadata: true, ..c }, args, i + 1);
        parse_from_keeps_valid(ConfigView { fit: Some(FitMode::Cover), ..c }, args, i + 1);
        parse_from_keeps_valid(ConfigView { fit: Some(FitMode::Contain), ..c }, args, i + 1);
        parse_from_keeps_valid(ConfigView { fit: Some(FitMode::ScaleDown), ..c }, args, i + 1);
        if i + 1 < args.len() {
            let a = args[i + 1];
            if let Some(v) = dimension_of(a) {
                parse_from_keeps_valid(ConfigView { width: Some(v), ..c }, args, i + 2);
                parse_from_keeps_valid(ConfigView { height: Some(v), ..c }, args, i + 2);
            }
            if let Some(m) = fit_of(a) {
                parse_from_keeps_valid(ConfigView { fit: Some(m), ..c }, args, i + 2);
            }
            if let Some(q) = quality_of(a) {
                parse_from_keeps_valid(ConfigView { quality: q, ..c }, args, i + 2);
            }
            parse_from_keeps_valid(ConfigView { format: Some(a), ..c }, args, i + 2);
        }
    }
}

/// Every configuration that the parser builds has positive dimensions and a
/// quality in `1..=100`.
pub proof fn parsed_config_is_valid(args: Seq<Seq<char>>)
    ensures
        parse_spec(args) matches Ok(CommandView::Run(c)) ==> valid_config(c),
{
    parse_from_keeps_valid(default_config(), args, 0);
}

} // verus!
