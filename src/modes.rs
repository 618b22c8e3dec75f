use vstd::prelude::*;
use image::imageops::FilterType;

verus! {

/// The resampling filter's kernel as the codec names it; its variants carry no data.
#[verifier::external_type_specification]
pub struct ExFilterType(FilterType);

/// Resampling kernel, from the fastest and blockiest to the smoothest and slowest.
#[derive(Debug, Clone, Copy, PartialEq, Eq, Structural)]
pub enum FilterMode {
    Nearest,
    Triangle,
    CatmullRom,
    Gaussian,
    Lanczos3,
}

impl Default for FilterMode {
    /// Catmull-Rom: the balance between quality and cost.
    fn default() -> (r: Self)
        ensures
            r == FilterMode::CatmullRom,
    {
        FilterMode::CatmullRom
    }
}

/// How the original aspect ratio is reconciled with the target box.
#[derive(Debug, Clone, Copy, PartialEq, Eq, Structural)]
pub enum AspectMode {
    /// Fit inside the box, keeping the aspect ratio; one axis may fall short.
    Preserve,
    /// Stretch or squash to the box exactly.
    Ignore,
    /// Cover the box, keeping the aspect ratio, and crop the excess around the center.
    Clip,
}

impl Default for AspectMode {
    fn default() -> (r: Self)
        ensures
            r == AspectMode::Preserve,
    {
        AspectMode::Preserve
    }
}

/// The codec's kernel for each filter mode, one for one.
pub open spec fn kernel_of(f: FilterMode) -> FilterType {
    match f {
        FilterMode::Nearest => FilterType::Nearest,
        FilterMode::Triangle => FilterType::Triangle,
        FilterMode::CatmullRom => FilterType::CatmullRom,
        FilterMode::Gaussian => FilterType::Gaussian,
        FilterMode::Lanczos3 => FilterType::Lanczos3,
    }
}

impl FilterMode {
    /// The codec's kernel that this mode selects.
    pub fn kernel(self) -> (r: FilterType)
        ensures
            r == kernel_of(self),
    {
        match self {
            FilterMode::Nearest => FilterType::Nearest,
            FilterMode::Triangle => FilterType::Triangle,
            FilterMode::CatmullRom => FilterType::CatmullRom,
            FilterMode::Gaussian => FilterType::Gaussian,
            FilterMode::Lanczos3 => FilterType::Lanczos3,
        }
    }
}

} // verus!
