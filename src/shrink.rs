use vstd::prelude::*;
use image::ImageError;
use crate::modes::{AspectMode, FilterMode, kernel_of};
use crate::raster::{
    Raster, at_least_one, buffer_fits, cover_bound, decode, decoded, encode_pnm, exact_resized,
    fill_croppable, filled, fit_within, fitted, pnm_of, positive, resize_exact, resize_fill,
    resize_fit,
};
use crate::size::ResizeConfig;

verus! {

/// What the codec could not do.
pub enum CodecError {
    /// The input bytes are not an image in any encoding that the codec knows.
    DecodeFailed(ImageError),
    /// The image could not be encoded.
    EncodeFailed(ImageError),
}

/// Every choice that fixes the transform of one image.
#[derive(Debug, Clone, Copy)]
pub struct ShrinkConfig {
    pub filter: FilterMode,
    pub aspect: AspectMode,
    pub new_sz: ResizeConfig,
}

/// The image that `mode` makes of `img` for `target` with `filter`.
pub open spec fn policy_result(mode: AspectMode, img: Raster, target: ResizeConfig, filter: FilterMode) -> Raster {
    let k = kernel_of(filter);
    match mode {
        AspectMode::Preserve => fitted(img, target, k),
        AspectMode::Ignore => exact_resized(img, target.new_width, target.new_height, k),
        AspectMode::Clip => filled(img, target, k),
    }
}

/// Whether every pixel buffer that `mode` needs for `orig` and `target` stays within
/// the largest allocation.
pub open spec fn policy_fits(mode: AspectMode, orig: ResizeConfig, target: ResizeConfig) -> bool {
    let (w, nw, nh) = (orig.new_width as int, target.new_width as int, target.new_height as int);
    match mode {
        AspectMode::Preserve => buffer_fits(
            at_least_one(target.new_width),
            at_least_one(target.new_height),
        ) && buffer_fits(w, at_least_one(target.new_height)),
        AspectMode::Ignore => buffer_fits(nw, nh) && buffer_fits(w, nh),
        AspectMode::Clip => fill_croppable(orig, target) && buffer_fits(
            cover_bound(orig, target).0,
            cover_bound(orig, target).1,
        ) && buffer_fits(w, cover_bound(orig, target).1),
    }
}

/// Whether the covering size of `orig` for `target` stays within `u32` on both axes.
pub open spec fn cover_in_range(orig: ResizeConfig, target: ResizeConfig) -> bool {
    cover_bound(orig, target).0 <= u32::MAX && cover_bound(orig, target).1 <= u32::MAX
}

fn buffer_fits_exec(w: u64, h: u64) -> (r: bool)
    ensures
        r == buffer_fits(w as int, h as int),
{
    assert(w as int * h as int <= u64::MAX as int * u64::MAX as int) by (nonlinear_arith)
        requires
            w <= u64::MAX,
            h <= u64::MAX,
    ;
    let p = (w as u128) * (h as u128);
    assert(w as int * h as int * 16 <= isize::MAX <==> w as int * h as int <= isize::MAX as int / 16)
        by (nonlinear_arith);
    p <= (isize::MAX as u128) / 16
}

fn at_least_one_exec(v: u32) -> (r: u64)
    ensures
        r == at_least_one(v),
{
    if v == 0 {
        1
    } else {
        v as u64
    }
}

fn cover_bound_exec(orig: ResizeConfig, target: ResizeConfig) -> (r: (u64, u64))
    ensures
        r.0 == cover_bound(orig, target).0,
        r.1 == cover_bound(orig, target).1,
{
    let (w, h) = (orig.new_width as u64, orig.new_height as u64);
    let (nw, nh) = (target.new_width as u64, target.new_height as u64);
    if w == 0 {
        (1, u32::MAX as u64)
    } else if h == 0 {
        (u32::MAX as u64, 1)
    } else {
        assert(nw * h <= u32::MAX * u32::MAX) by (nonlinear_arith)
            requires
                nw <= u32::MAX,
                h <= u32::MAX,
        ;
        assert(w * nh <= u32::MAX * u32::MAX) by (nonlinear_arith)
            requires
                nh <= u32::MAX,
                w <= u32::MAX,
        ;
        if nw * h >= w * nh {
            assert((h as int) * (nw as int) / (w as int) <= (h as int) * (nw as int)) by (nonlinear_arith)
                requires
                    w >= 1,
                    h * nw >= 0,
            ;
            (nw, h * nw / w + 2)
        } else {
            assert((w as int) * (nh as int) / (h as int) <= (w as int) * (nh as int)) by (nonlinear_arith)
                requires
                    h >= 1,
                    w * nh >= 0,
            ;
            (w * nh / h + 2, nh)
        }
    }
}

impl AspectMode {
    /// Resizes `original` toward `cfg` under this mode with the given filter. The
    /// original is left as it was.
    pub fn resize_image(&self, original: &Raster, cfg: ResizeConfig, filter: FilterMode) -> (r: Raster)
        requires
            policy_fits(*self, original@, cfg),
        ensures
            r == policy_result(*self, *original, cfg, filter),
            (*self == AspectMode::Ignore ==> r@ == cfg),
            (*self == AspectMode::Clip && positive(original@) && cover_in_range(original@, cfg)
                ==> r@ == cfg),
            (*self == AspectMode::Preserve && positive(original@) && positive(cfg) ==> {
                &&& r@.new_width <= cfg.new_width
                &&& r@.new_height <= cfg.new_height
                &&& (r@.new_width == cfg.new_width || r@.new_height == cfg.new_height)
                &&& (original@.new_width as int * cfg.new_height as int == original@.new_height as int
                    * cfg.new_width as int ==> r@ == cfg)
                &&& fit_within(original@, cfg, r@)
            }),
    {
        let typ = filter.kernel();
        match self {
            AspectMode::Preserve => resize_fit(original, cfg, typ),
            AspectMode::Ignore => resize_exact(original, cfg.new_width, cfg.new_height, typ),
            AspectMode::Clip => resize_fill(original, cfg, typ),
        }
    }
}

impl ShrinkConfig {
    /// Whether every buffer that `convert` needs for `original` stays within the largest
    /// allocation; `convert` asks for this.
    pub fn fits(&self, original: &Raster) -> (r: bool)
        ensures
            r == policy_fits(self.aspect, original@, self.new_sz),
    {
        let w = original.width() as u64;
        let (nw, nh) = (self.new_sz.new_width as u64, self.new_sz.new_height as u64);
        match self.aspect {
            AspectMode::Preserve => {
                let (aw, ah) = (at_least_one_exec(self.new_sz.new_width), at_least_one_exec(self.new_sz.new_height));
                buffer_fits_exec(aw, ah) && buffer_fits_exec(w, ah)
            },
            AspectMode::Ignore => buffer_fits_exec(nw, nh) && buffer_fits_exec(w, nh),
            AspectMode::Clip => {
                let dims = ResizeConfig { new_width: original.width(), new_height: original.height() };
                let empty = dims.new_width == 0 && dims.new_height == 0;
                let croppable = !(empty && nw >= 2 && nh >= 2);
                let (cw, ch) = cover_bound_exec(dims, self.new_sz);
                croppable && buffer_fits_exec(cw, ch) && buffer_fits_exec(w, ch)
            },
        }
    }

    /// The transform that this configuration fixes, applied to `original`.
    pub fn convert(&self, original: &Raster) -> (r: Raster)
        requires
            policy_fits(self.aspect, original@, self.new_sz),
        ensures
            r == policy_result(self.aspect, *original, self.new_sz, self.filter),
            (self.aspect == AspectMode::Ignore ==> r@ == self.new_sz),
            (self.aspect == AspectMode::Clip && positive(original@) && cover_in_range(original@, self.new_sz)
                ==> r@ == self.new_sz),
            (self.aspect == AspectMode::Preserve && positive(original@) && positive(self.new_sz) ==> {
                &&& r@.new_width <= self.new_sz.new_width
                &&& r@.new_height <= self.new_sz.new_height
                &&& (r@.new_width == self.new_sz.new_width || r@.new_height == self.new_sz.new_height)
                &&& (original@.new_width as int * self.new_sz.new_height as int == original@.new_height as int
                    * self.new_sz.new_width as int ==> r@ == self.new_sz)
                &&& fit_within(original@, self.new_sz, r@)
            }),
            (self.aspect == AspectMode::Ignore && self.new_sz == original@ ==> r@ == original@),
    {
        self.aspect.resize_image(original, self.new_sz, self.filter)
    }
}

/// Decodes an image, guessing its encoding from the bytes.
pub fn bytes2image(dat: &[u8]) -> (r: Result<Raster, CodecError>)
    ensures
        r is Ok <==> decoded(dat@) is Some,
        r is Ok ==> r->Ok_0 == decoded(dat@)->0,
        r is Err ==> r->Err_0 is DecodeFailed,
{
    match decode(dat) {
        Ok(img) => Ok(img),
        Err(e) => Err(CodecError::DecodeFailed(e)),
    }
}

/// Encodes an image as a portable anymap.
pub fn img2wtr(img: &Raster) -> (r: Result<Vec<u8>, CodecError>)
    ensures
        r is Ok <==> pnm_of(*img) is Some,
        r is Ok ==> r->Ok_0@ == pnm_of(*img)->0,
        r is Err ==> r->Err_0 is EncodeFailed,
{
    match encode_pnm(img) {
        Ok(bytes) => Ok(bytes),
        Err(e) => Err(CodecError::EncodeFailed(e)),
    }
}

} // verus!
