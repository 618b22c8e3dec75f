use vstd::prelude::*;
use image::imageops::FilterType;
use image::{DynamicImage, ImageError, ImageFormat};
use crate::size::ResizeConfig;

verus! {

#[verifier::external_type_specification]
#[verifier::external_body]
pub struct ExDynamicImage(DynamicImage);

#[verifier::external_type_specification]
#[verifier::external_body]
pub struct ExImageError(ImageError);

/// A decoded image: pixels held by the codec, with the width and height that the
/// resize policy reads.
pub struct Raster {
    pixels: DynamicImage,
    width: u32,
    height: u32,
}

impl View for Raster {
    type V = ResizeConfig;

    closed spec fn view(&self) -> ResizeConfig {
        ResizeConfig { new_width: self.width, new_height: self.height }
    }
}

impl Raster {
    pub fn width(&self) -> (r: u32)
        ensures
            r == self@.new_width,
    {
        self.width
    }

    pub fn height(&self) -> (r: u32)
        ensures
            r == self@.new_height,
    {
        self.height
    }
}

/// Whether a pixel buffer of `w` by `h` pixels, at up to four channels of four bytes
/// per pixel, stays within the largest allocation; the codec panics on one that does not.
pub open spec fn buffer_fits(w: int, h: int) -> bool {
    w * h * 16 <= isize::MAX
}

/// A zero extent is raised to one, as the codec does for aspect-preserving sizes.
pub open spec fn at_least_one(v: u32) -> int {
    if v == 0 {
        1
    } else {
        v as int
    }
}

/// Whether both sides are positive.
pub open spec fn positive(d: ResizeConfig) -> bool {
    d.new_width >= 1 && d.new_height >= 1
}

/// An upper bound on the size of the image that scales `orig` to cover `target`,
/// before the crop: the covering axis is exact, the other rounded up with slack.
/// A degenerate original may be scaled to the largest extent on one axis.
pub open spec fn cover_bound(orig: ResizeConfig, target: ResizeConfig) -> (int, int) {
    let (w, h) = (orig.new_width as int, orig.new_height as int);
    let (nw, nh) = (target.new_width as int, target.new_height as int);
    if w == 0 {
        (1, u32::MAX as int)
    } else if h == 0 {
        (u32::MAX as int, 1)
    } else if nw * h >= w * nh {
        (nw, h * nw / w + 2)
    } else {
        (w * nh / h + 2, nh)
    }
}

/// Whether the cover-and-crop resize can crop `orig` to `target`: an empty original
/// is scaled to one pixel, which the codec cannot crop to two or more on both axes.
pub open spec fn fill_croppable(orig: ResizeConfig, target: ResizeConfig) -> bool {
    !(orig.new_width == 0 && orig.new_height == 0 && target.new_width >= 2 && target.new_height
        >= 2)
}

/// The size guarantees of an aspect-preserving fit of `orig` into `target`, for positive
/// sizes: each side is between one and the target's; an axis that limits the scale gets
/// the target exactly, and the other axis gets the scaled side rounded to within one
/// pixel, exactly where the scaled side is a whole number.
pub open spec fn fit_within(orig: ResizeConfig, target: ResizeConfig, out: ResizeConfig) -> bool {
    let (w, h) = (orig.new_width as int, orig.new_height as int);
    let (nw, nh) = (target.new_width as int, target.new_height as int);
    let (ow, oh) = (out.new_width as int, out.new_height as int);
    &&& 1 <= ow <= nw
    &&& 1 <= oh <= nh
    &&& (w * nh >= h * nw ==> {
        &&& ow == nw
        &&& -w <= oh * w - h * nw <= w
        &&& ((h * nw) % w == 0 ==> oh == (h * nw) / w)
    })
    &&& (h * nw >= w * nh ==> {
        &&& oh == nh
        &&& -h <= ow * h - w * nh <= h
        &&& ((w * nh) % h == 0 ==> ow == (w * nh) / h)
    })
}

/// The image that the codec decodes from `dat`, or `None` where it cannot.
pub uninterp spec fn decoded(dat: Seq<u8>) -> Option<Raster>;

/// The portable anymap bytes that the codec writes for `img`, or `None` where it cannot.
pub uninterp spec fn pnm_of(img: Raster) -> Option<Seq<u8>>;

/// The image that the codec's exact resize makes of `img`.
pub uninterp spec fn exact_resized(img: Raster, w: u32, h: u32, filter: FilterType) -> Raster;

/// The image that the codec's aspect-preserving resize makes of `img` for `target`.
pub uninterp spec fn fitted(img: Raster, target: ResizeConfig, filter: FilterType) -> Raster;

/// The image that the codec's cover-and-crop resize makes of `img` for `target`.
pub uninterp spec fn filled(img: Raster, target: ResizeConfig, filter: FilterType) -> Raster;

/// Relies on image::load_from_memory: guesses the encoding from the bytes and
/// decodes them, or fails with the codec's error; the outcome depends on the bytes alone.
#[verifier::external_body]
pub(crate) fn decode(dat: &[u8]) -> (r: Result<Raster, ImageError>)
    ensures
        r is Ok <==> decoded(dat@) is Some,
        r is Ok ==> r->Ok_0 == decoded(dat@)->0,
{
    match image::load_from_memory(dat) {
        Ok(img) => Ok(Raster { width: img.width(), height: img.height(), pixels: img }),
        Err(e) => Err(e),
    }
}

/// Relies on DynamicImage::write_to with ImageFormat::Pnm: encodes the pixels as a
/// portable anymap into an in-memory buffer; the outcome depends on the image alone.
#[verifier::external_body]
pub(crate) fn encode_pnm(img: &Raster) -> (r: Result<Vec<u8>, ImageError>)
    ensures
        r is Ok <==> pnm_of(*img) is Some,
        r is Ok ==> r->Ok_0@ == pnm_of(*img)->0,
{
    let mut buf = std::io::Cursor::new(Vec::new());
    match img.pixels.write_to(&mut buf, ImageFormat::Pnm) {
        Ok(()) => Ok(buf.into_inner()),
        Err(e) => Err(e),
    }
}

/// Relies on DynamicImage::resize_exact: resamples to exactly `w` by `h`. Its
/// sampler holds an intermediate of the original width by `h`.
#[verifier::external_body]
pub(crate) fn resize_exact(img: &Raster, w: u32, h: u32, filter: FilterType) -> (r: Raster)
    requires
        buffer_fits(w as int, h as int),
        buffer_fits(img@.new_width as int, h as int),
    ensures
        r == exact_resized(*img, w, h, filter),
        r@ == (ResizeConfig { new_width: w, new_height: h }),
{
    let out = img.pixels.resize_exact(w, h, filter);
    Raster { width: out.width(), height: out.height(), pixels: out }
}

/// Relies on DynamicImage::resize: scales by one factor to the largest size that
/// fits inside `target`, rounding each side and raising it to at least one pixel.
#[verifier::external_body]
pub(crate) fn resize_fit(img: &Raster, target: ResizeConfig, filter: FilterType) -> (r: Raster)
    requires
        buffer_fits(at_least_one(target.new_width), at_least_one(target.new_height)),
        buffer_fits(img@.new_width as int, at_least_one(target.new_height)),
    ensures
        r == fitted(*img, target, filter),
        positive(img@) && positive(target) ==> fit_within(img@, target, r@),
{
    let out = img.pixels.resize(target.new_width, target.new_height, filter);
    Raster { width: out.width(), height: out.height(), pixels: out }
}

/// Relies on DynamicImage::resize_to_fill: scales by one factor to cover `target`,
/// then crops the excess evenly from both ends of the longer axis.
#[verifier::external_body]
pub(crate) fn resize_fill(img: &Raster, target: ResizeConfig, filter: FilterType) -> (r: Raster)
    requires
        fill_croppable(img@, target),
        buffer_fits(cover_bound(img@, target).0, cover_bound(img@, target).1),
        buffer_fits(img@.new_width as int, cover_bound(img@, target).1),
    ensures
        r == filled(*img, target, filter),
        positive(img@) && cover_bound(img@, target).0 <= u32::MAX && cover_bound(img@, target).1
            <= u32::MAX ==> r@ == target,
{
    let out = img.pixels.resize_to_fill(target.new_width, target.new_height, filter);
    Raster { width: out.width(), height: out.height(), pixels: out }
}

} // verus!
