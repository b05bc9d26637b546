//! Image formats: what sniffing can report and what this tool can write.
use crate::text::same_text;
use vstd::prelude::*;

verus! {

/// An encoded image format, as recognised from its leading bytes.
#[derive(Clone, Copy, PartialEq, Eq, Structural, Debug)]
pub enum ImageKind {
    Png,
    Jpeg,
    Gif,
    WebP,
    Pnm,
    Tiff,
    Tga,
    Dds,
    Bmp,
    Ico,
    Hdr,
    OpenExr,
    Farbfeld,
    Avif,
    Qoi,
    Pcx,
    /// A format this build does not know by name.
    Other,
}

/// The display name of each format.
pub open spec fn kind_name(k: ImageKind) -> Seq<char> {
    match k {
        ImageKind::Png => "Png"@,
        ImageKind::Jpeg => "Jpeg"@,
        ImageKind::Gif => "Gif"@,
        ImageKind::WebP => "WebP"@,
        ImageKind::Pnm => "Pnm"@,
        ImageKind::Tiff => "Tiff"@,
        ImageKind::Tga => "Tga"@,
        ImageKind::Dds => "Dds"@,
        ImageKind::Bmp => "Bmp"@,
        ImageKind::Ico => "Ico"@,
        ImageKind::Hdr => "Hdr"@,
        ImageKind::OpenExr => "OpenExr"@,
        ImageKind::Farbfeld => "Farbfeld"@,
        ImageKind::Avif => "Avif"@,
        ImageKind::Qoi => "Qoi"@,
        ImageKind::Pcx => "Pcx"@,
        ImageKind::Other => "Other"@,
    }
}

impl ImageKind {
    pub fn name(&self) -> (r: &'static str)
        ensures
            r@ == kind_name(*self),
    {
        match self {
            ImageKind::Png => "Png",
            ImageKind::Jpeg => "Jpeg",
            ImageKind::Gif => "Gif",
            ImageKind::WebP => "WebP",
            ImageKind::Pnm => "Pnm",
            ImageKind::Tiff => "Tiff",
            ImageKind::Tga => "Tga",
            ImageKind::Dds => "Dds",
            ImageKind::Bmp => "Bmp",
            ImageKind::Ico => "Ico",
            ImageKind::Hdr => "Hdr",
            ImageKind::OpenExr => "OpenExr",
            ImageKind::Farbfeld => "Farbfeld",
            ImageKind::Avif => "Avif",
            ImageKind::Qoi => "Qoi",
            ImageKind::Pcx => "Pcx",
            ImageKind::Other => "Other",
        }
    }
}

/// The format with the given display name; `Other` for a name not listed.
pub open spec fn kind_named(n: Seq<char>) -> ImageKind {
    if n == "Png"@ {
        ImageKind::Png
    } else if n == "Jpeg"@ {
        ImageKind::Jpeg
    } else if n == "Gif"@ {
        ImageKind::Gif
    } else if n == "WebP"@ {
        ImageKind::WebP
    } else if n == "Pnm"@ {
        ImageKind::Pnm
    } else if n == "Tiff"@ {
        ImageKind::Tiff
    } else if n == "Tga"@ {
        ImageKind::Tga
    } else if n == "Dds"@ {
        ImageKind::Dds
    } else if n == "Bmp"@ {
        ImageKind::Bmp
    } else if n == "Ico"@ {
        ImageKind::Ico
    } else if n == "Hdr"@ {
        ImageKind::Hdr
    } else if n == "OpenExr"@ {
        ImageKind::OpenExr
    } else if n == "Farbfeld"@ {
        ImageKind::Farbfeld
    } else if n == "Avif"@ {
        ImageKind::Avif
    } else if n == "Qoi"@ {
        ImageKind::Qoi
    } else if n == "Pcx"@ {
        ImageKind::Pcx
    } else {
        ImageKind::Other
    }
}

/// The format with the given display name.
pub fn kind_from_name(n: &str) -> (r: ImageKind)
    ensures
        r == kind_named(n@),
{
    if same_text(n, "Png") {
        ImageKind::Png
    } else if same_text(n, "Jpeg") {
        ImageKind::Jpeg
    } else if same_text(n, "Gif") {
        ImageKind::Gif
    } else if same_text(n, "WebP") {
        ImageKind::WebP
    } else if same_text(n, "Pnm") {
        ImageKind::Pnm
    } else if same_text(n, "Tiff") {
        ImageKind::Tiff
    } else if same_text(n, "Tga") {
        ImageKind::Tga
    } else if same_text(n, "Dds") {
        ImageKind::Dds
    } else if same_text(n, "Bmp") {
        ImageKind::Bmp
    } else if same_text(n, "Ico") {
        ImageKind::Ico
    } else if same_text(n, "Hdr") {
        ImageKind::Hdr
    } else if same_text(n, "OpenExr") {
        ImageKind::OpenExr
    } else if same_text(n, "Farbfeld") {
        ImageKind::Farbfeld
    } else if same_text(n, "Avif") {
        ImageKind::Avif
    } else if same_text(n, "Qoi") {
        ImageKind::Qoi
    } else if same_text(n, "Pcx") {
        ImageKind::Pcx
    } else {
        ImageKind::Other
    }
}

/// A format this tool can write.
#[derive(Clone, Copy, PartialEq, Eq, Structural, Debug)]
pub enum Target {
    Jpeg,
    Png,
    WebP,
    Avif,
    Ico,
}

/// The writable format that a sniffed input format maps to, if any.
pub open spec fn target_of_kind(k: ImageKind) -> Option<Target> {
    match k {
        ImageKind::Jpeg => Some(Target::Jpeg),
        ImageKind::Png => Some(Target::Png),
        ImageKind::WebP => Some(Target::WebP),
        ImageKind::Avif => Some(Target::Avif),
        ImageKind::Ico => Some(Target::Ico),
        _ => None,
    }
}

pub fn kind_target(k: ImageKind) -> (r: Option<Target>)
    ensures
        r == target_of_kind(k),
{
    match k {
        ImageKind::Jpeg => Some(Target::Jpeg),
        ImageKind::Png => Some(Target::Png),
        ImageKind::WebP => Some(Target::WebP),
        ImageKind::Avif => Some(Target::Avif),
        ImageKind::Ico => Some(Target::Ico),
        _ => None,
    }
}

/// What an explicit `--format` name asks for: a writable format, or the
/// name that is reported as unsupported. `gif` is recognised but cannot be
/// written, and is reported under its display name.
pub enum FormatChoice {
    Write(Target),
    Unsupported(Seq<char>),
}

pub open spec fn format_name_choice(name: Seq<char>) -> FormatChoice {
    if name == "jpg"@ || name == "jpeg"@ {
        FormatChoice::Write(Target::Jpeg)
    } else if name == "png"@ {
        FormatChoice::Write(Target::Png)
    } else if name == "webp"@ {
        FormatChoice::Write(Target::WebP)
    } else if name == "avif"@ {
        FormatChoice::Write(Target::Avif)
    } else if name == "ico"@ {
        FormatChoice::Write(Target::Ico)
    } else if name == "gif"@ {
        FormatChoice::Unsupported(kind_name(ImageKind::Gif))
    } else {
        FormatChoice::Unsupported(name)
    }
}

} // verus!
