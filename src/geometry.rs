//! Resize geometry: deriving a missing dimension and choosing the resize step.
use crate::options::FitMode;
use vstd::prelude::*;

verus! {

/// The resize step to apply to a decoded image.
#[derive(Clone, Copy, PartialEq, Eq, Structural, Debug)]
pub enum ResizePlan {
    /// Leave the image as it is.
    Keep,
    /// Resize to exactly this size, ignoring the aspect ratio.
    Exact(u32, u32),
    /// Resize and crop to fill exactly this size.
    Fill(u32, u32),
    /// Resize to fit within this size, keeping the aspect ratio.
    Fit(u32, u32),
    /// Scale down to fit within this size, keeping the aspect ratio.
    Shrink(u32, u32),
}

/// Why no resize step could be chosen.
#[derive(Clone, Copy, PartialEq, Eq, Structural, Debug)]
pub enum GeometryError {
    /// `Cover` was asked for with only one of width and height.
    CoverNeedsBoth,
}

/// The dimension derived from `given` at the source's aspect ratio `num / den`,
/// truncated toward zero, never below one pixel and never beyond `u32::MAX`.
pub open spec fn derived_length(given: u32, num: u32, den: u32) -> u32
    recommends
        den > 0,
{
    let v = (given as int) * (num as int) / (den as int);
    if v < 1 {
        1
    } else if v > u32::MAX {
        u32::MAX
    } else {
        v as u32
    }
}

/// The step for a fully resolved target size.
pub open spec fn plan_for(w: u32, h: u32, fit: Option<FitMode>, ow: u32, oh: u32) -> ResizePlan {
    match fit {
        None => ResizePlan::Exact(w, h),
        Some(FitMode::Cover) => ResizePlan::Fill(w, h),
        Some(FitMode::Contain) => ResizePlan::Fit(w, h),
        Some(FitMode::ScaleDown) => if w < ow || h < oh {
            ResizePlan::Shrink(w, h)
        } else {
            ResizePlan::Keep
        },
    }
}

/// The resize step for the requested width, height and fit mode on a source
/// of `ow` by `oh` pixels.
pub open spec fn plan_of(
    width: Option<u32>,
    height: Option<u32>,
    fit: Option<FitMode>,
    ow: u32,
    oh: u32,
) -> Result<ResizePlan, GeometryError> {
    let cover = fit == Some(FitMode::Cover);
    match (width, height) {
        (Some(w), None) => if cover {
            Err(GeometryError::CoverNeedsBoth)
        } else {
            Ok(plan_for(w, derived_length(w, oh, ow), fit, ow, oh))
        },
        (None, Some(h)) => if cover {
            Err(GeometryError::CoverNeedsBoth)
        } else {
            Ok(plan_for(derived_length(h, ow, oh), h, fit, ow, oh))
        },
        (Some(w), Some(h)) => Ok(plan_for(w, h, fit, ow, oh)),
        (None, None) => Ok(ResizePlan::Keep),
    }
}

/// Each requested dimension, where given, is at least one pixel.
pub open spec fn positive_request(width: Option<u32>, height: Option<u32>) -> bool {
    (width matches Some(w) ==> w >= 1) && (height matches Some(h) ==> h >= 1)
}

/// Every size that a plan names is at least one pixel in each direction.
pub open spec fn plan_positive(p: ResizePlan) -> bool {
    match p {
        ResizePlan::Keep => true,
        ResizePlan::Exact(w, h) => w >= 1 && h >= 1,
        ResizePlan::Fill(w, h) => w >= 1 && h >= 1,
        ResizePlan::Fit(w, h) => w >= 1 && h >= 1,
        ResizePlan::Shrink(w, h) => w >= 1 && h >= 1,
    }
}

/// Computes `derived_length`.
pub fn derive_length(given: u32, num: u32, den: u32) -> (r: u32)
    requires
        den > 0,
    ensures
        r == derived_length(given, num, den),
        r >= 1,
{
    assert((given as int) * (num as int) <= 0xffff_ffffint * 0xffff_ffffint) by (nonlinear_arith)
        requires
            given <= 0xffff_ffff,
            num <= 0xffff_ffff,
    ;
    let v: u64 = (given as u64) * (num as u64) / (den as u64);
    if v < 1 {
        1
    } else if v > u32::MAX as u64 {
        u32::MAX
    } else {
        v as u32
    }
}

fn choose_step(w: u32, h: u32, fit: Option<FitMode>, ow: u32, oh: u32) -> (r: ResizePlan)
    ensures
        r == plan_for(w, h, fit, ow, oh),
{
    match fit {
        None => ResizePlan::Exact(w, h),
        Some(FitMode::Cover) => ResizePlan::Fill(w, h),
        Some(FitMode::Contain) => ResizePlan::Fit(w, h),
        Some(FitMode::ScaleDown) => if w < ow || h < oh {
            ResizePlan::Shrink(w, h)
        } else {
            ResizePlan::Keep
        },
    }
}

/// Resolves the requested size against a source of `ow` by `oh` pixels and
/// chooses the resize step. A missing dimension is derived from the other at
/// the source's aspect ratio; `Cover` needs both.
pub fn plan_resize(
    width: Option<u32>,
    height: Option<u32>,
    fit: Option<FitMode>,
    ow: u32,
    oh: u32,
) -> (r: Result<ResizePlan, GeometryError>)
    requires
        ow >= 1,
        oh >= 1,
    ensures
        r == plan_of(width, height, fit, ow, oh),
        positive_request(width, height) ==> (r matches Ok(p) ==> plan_positive(p)),
{
    let cover = match fit {
        Some(FitMode::Cover) => true,
        _ => false,
    };
    match (width, height) {
        (Some(w), None) => {
            if cover {
                Err(GeometryError::CoverNeedsBoth)
            } else {
                let h = derive_length(w, oh, ow);
                Ok(choose_step(w, h, fit, ow, oh))
            }
        },
        (None, Some(h)) => {
            if cover {
                Err(GeometryError::CoverNeedsBoth)
            } else {
                let w = derive_length(h, ow, oh);
                Ok(choose_step(w, h, fit, ow, oh))
            }
        },
        (Some(w), Some(h)) => Ok(choose_step(w, h, fit, ow, oh)),
        (None, None) => Ok(ResizePlan::Keep),
    }
}

} // verus!
