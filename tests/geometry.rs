use reimg::geometry::{derive_length, plan_resize, GeometryError, ResizePlan};
use reimg::options::FitMode;

#[test]
fn width_only_derives_height_from_aspect_ratio() {
    assert_eq!(derive_length(100, 50, 200), 25);
    assert_eq!(plan_resize(Some(100), None, None, 200, 50), Ok(ResizePlan::Exact(100, 25)));
}

#[test]
fn height_only_derives_width_from_aspect_ratio() {
    assert_eq!(plan_resize(None, Some(25), None, 200, 50), Ok(ResizePlan::Exact(100, 25)));
    assert_eq!(plan_resize(None, Some(10), Some(FitMode::Contain), 300, 200), Ok(ResizePlan::Fit(15, 10)));
}

#[test]
fn derived_dimension_truncates_and_stays_positive() {
    assert_eq!(derive_length(10, 2, 3), 6);
    assert_eq!(derive_length(1, 50, 200), 1);
    assert_eq!(derive_length(u32::MAX, u32::MAX, 1), u32::MAX);
}

#[test]
fn cover_needs_both_dimensions() {
    assert_eq!(plan_resize(Some(100), None, Some(FitMode::Cover), 200, 50), Err(GeometryError::CoverNeedsBoth));
    assert_eq!(plan_resize(None, Some(100), Some(FitMode::Cover), 200, 50), Err(GeometryError::CoverNeedsBoth));
}

#[test]
fn no_dimensions_keep_the_image() {
    assert_eq!(plan_resize(None, None, None, 200, 50), Ok(ResizePlan::Keep));
    assert_eq!(plan_resize(None, None, Some(FitMode::Cover), 200, 50), Ok(ResizePlan::Keep));
}

#[test]
fn fit_modes_choose_their_steps() {
    assert_eq!(plan_resize(Some(80), Some(60), Some(FitMode::Cover), 200, 50), Ok(ResizePlan::Fill(80, 60)));
    assert_eq!(plan_resize(Some(80), Some(60), Some(FitMode::Contain), 200, 50), Ok(ResizePlan::Fit(80, 60)));
    assert_eq!(plan_resize(Some(80), Some(60), Some(FitMode::ScaleDown), 200, 50), Ok(ResizePlan::Shrink(80, 60)));
    assert_eq!(plan_resize(Some(300), Some(60), Some(FitMode::ScaleDown), 200, 50), Ok(ResizePlan::Keep));
    assert_eq!(plan_resize(Some(200), Some(50), Some(FitMode::ScaleDown), 200, 50), Ok(ResizePlan::Keep));
}
