use std::io::Cursor;

use image::{DynamicImage, ImageFormat, Rgb, RgbImage};
use pnm_shrink::{
    bytes2image, img2wtr, resolve, AspectMode, BoundedBuffer, CodecError, ConfigError,
    FilterMode, Raster, ResizeConfig, ShrinkConfig,
};

fn encoded(img: RgbImage, format: ImageFormat) -> Vec<u8> {
    let mut buf = Cursor::new(Vec::new());
    DynamicImage::ImageRgb8(img).write_to(&mut buf, format).unwrap();
    buf.into_inner()
}

fn raster(w: u32, h: u32) -> Raster {
    let bytes = encoded(RgbImage::from_pixel(w, h, Rgb([10, 20, 30])), ImageFormat::Png);
    match bytes2image(&bytes) {
        Ok(r) => r,
        Err(_) => panic!("a valid PNG did not decode"),
    }
}

fn dims(r: &Raster) -> (u32, u32) {
    (r.width(), r.height())
}

fn cfg(aspect: AspectMode, filter: FilterMode, w: u32, h: u32) -> ShrinkConfig {
    ShrinkConfig { filter, aspect, new_sz: ResizeConfig { new_width: w, new_height: h } }
}

fn run(c: &ShrinkConfig, r: &Raster) -> (u32, u32) {
    assert!(c.fits(r));
    dims(&c.convert(r))
}

#[test]
fn hint_tokens_give_documented_squares() {
    let table = [
        ("min", 8),
        ("minimal", 8),
        ("tiny", 16),
        ("small", 32),
        ("normal", 64),
        ("large", 128),
        ("Large", 256),
        ("LARGE", 512),
        ("huge", 1024),
        ("Huge", 2048),
        ("HUGE", 4096),
    ];
    for (t, side) in table {
        assert_eq!(resolve(t, None, None), Ok(ResizeConfig::new_square(side)));
        let c = ResizeConfig::from_size_hint(t).unwrap();
        assert_eq!((c.new_width, c.new_height), (side, side));
    }
}

#[test]
fn new_square_sets_both_axes() {
    let c = ResizeConfig::new_square(77);
    assert_eq!((c.new_width, c.new_height), (77, 77));
}

#[test]
fn single_override_keeps_other_axis() {
    assert_eq!(
        resolve("small", Some(100), None),
        Ok(ResizeConfig { new_width: 100, new_height: 32 })
    );
    assert_eq!(
        resolve("Large", None, Some(5)),
        Ok(ResizeConfig { new_width: 256, new_height: 5 })
    );
    assert_eq!(
        resolve("tiny", Some(0), Some(u32::MAX)),
        Ok(ResizeConfig { new_width: 0, new_height: u32::MAX })
    );
}

#[test]
fn unknown_hint_is_rejected() {
    for t in ["", "Min", "medium", "small ", "hUGE", "minimals"] {
        assert_eq!(resolve(t, Some(3), Some(4)), Err(ConfigError::UnknownHint(t.to_string())));
        assert!(ResizeConfig::from_size_hint(t).is_none());
    }
}

#[test]
fn defaults_and_kernels() {
    assert_eq!(FilterMode::default(), FilterMode::CatmullRom);
    assert_eq!(AspectMode::default(), AspectMode::Preserve);
    assert_eq!(FilterMode::Nearest.kernel(), image::imageops::FilterType::Nearest);
    assert_eq!(FilterMode::Lanczos3.kernel(), image::imageops::FilterType::Lanczos3);
    assert_eq!(FilterMode::Gaussian.kernel(), image::imageops::FilterType::Gaussian);
}

#[test]
fn preserve_small_halves_wide_image() {
    let r = raster(64, 32);
    let target = resolve("small", None, None).unwrap();
    let c = ShrinkConfig { filter: FilterMode::Nearest, aspect: AspectMode::Preserve, new_sz: target };
    assert_eq!(run(&c, &r), (32, 16));
}

#[test]
fn preserve_stays_inside_and_touches_box() {
    let r = raster(30, 70);
    let (w, h) = run(&cfg(AspectMode::Preserve, FilterMode::Triangle, 50, 50), &r);
    assert_eq!(h, 50);
    assert!(w <= 50 && w >= 1);
    assert_eq!(run(&cfg(AspectMode::Preserve, FilterMode::CatmullRom, 15, 35), &r), (15, 35));
}

#[test]
fn ignore_gives_exact_target() {
    let r = raster(64, 32);
    let target = resolve("min", Some(10), Some(10)).unwrap();
    let c = ShrinkConfig { filter: FilterMode::CatmullRom, aspect: AspectMode::Ignore, new_sz: target };
    assert_eq!(run(&c, &r), (10, 10));
    assert_eq!(run(&cfg(AspectMode::Ignore, FilterMode::Gaussian, 7, 90), &r), (7, 90));
}

#[test]
fn clip_gives_exact_target() {
    let r = raster(64, 32);
    assert_eq!(run(&cfg(AspectMode::Clip, FilterMode::Lanczos3, 20, 20), &r), (20, 20));
    assert_eq!(run(&cfg(AspectMode::Clip, FilterMode::Nearest, 9, 40), &r), (9, 40));
}

#[test]
fn clip_keeps_center_slice() {
    let mut img = RgbImage::from_pixel(100, 50, Rgb([0, 0, 0]));
    for x in 25..75 {
        for y in 0..50 {
            img.put_pixel(x, y, Rgb([255, 255, 255]));
        }
    }
    let r = bytes2image(&encoded(img, ImageFormat::Png)).ok().unwrap();
    let out = cfg(AspectMode::Clip, FilterMode::Nearest, 50, 50).convert(&r);
    assert_eq!(dims(&out), (50, 50));
    let back = image::load_from_memory(&img2wtr(&out).ok().unwrap()).unwrap().to_rgb8();
    assert!(back.pixels().all(|p| *p == Rgb([255, 255, 255])));
}

#[test]
fn round_trip_keeps_dimensions() {
    let r = raster(23, 41);
    let c = cfg(AspectMode::Ignore, FilterMode::Nearest, r.width(), r.height());
    let out = c.convert(&r);
    let bytes = img2wtr(&out).ok().unwrap();
    assert_eq!(bytes[0], b'P');
    let again = bytes2image(&bytes).ok().unwrap();
    assert_eq!(dims(&again), (23, 41));
}

#[test]
fn malformed_input_fails_to_decode() {
    assert!(matches!(bytes2image(b"definitely not an image"), Err(CodecError::DecodeFailed(_))));
    assert!(matches!(bytes2image(&[]), Err(CodecError::DecodeFailed(_))));
}

#[test]
fn oversized_buffers_do_not_fit() {
    let r = raster(4, 4);
    assert!(!cfg(AspectMode::Ignore, FilterMode::Nearest, u32::MAX, u32::MAX).fits(&r));
    assert!(cfg(AspectMode::Ignore, FilterMode::Nearest, 100, 100).fits(&r));
    assert!(cfg(AspectMode::Clip, FilterMode::Nearest, 3, 3).fits(&r));
}

#[test]
fn bounded_buffer_keeps_min_of_length_and_limit() {
    let mut b = BoundedBuffer::new(4);
    assert_eq!(b.remaining(), 4);
    b.push_chunk(&[1, 2, 3]);
    assert_eq!(b.remaining(), 1);
    b.push_chunk(&[4, 5, 6, 7]);
    assert_eq!(b.remaining(), 0);
    b.push_chunk(&[8]);
    assert_eq!(b.into_bytes(), vec![1, 2, 3, 4]);

    let mut short = BoundedBuffer::new(10);
    short.push_chunk(&[9, 8]);
    short.push_chunk(&[7]);
    assert_eq!(short.remaining(), 7);
    assert_eq!(short.into_bytes(), vec![9, 8, 7]);

    let mut none = BoundedBuffer::new(0);
    none.push_chunk(&[1, 2]);
    assert_eq!(none.into_bytes(), Vec::<u8>::new());
}

#[test]
fn resize_image_dispatches_on_mode() {
    let r = raster(40, 10);
    let target = ResizeConfig { new_width: 20, new_height: 20 };
    assert_eq!(dims(&AspectMode::Preserve.resize_image(&r, target, FilterMode::Triangle)), (20, 5));
    assert_eq!(dims(&AspectMode::Ignore.resize_image(&r, target, FilterMode::Triangle)), (20, 20));
    assert_eq!(dims(&AspectMode::Clip.resize_image(&r, target, FilterMode::Triangle)), (20, 20));
    assert_eq!(dims(&r), (40, 10));
}

#[test]
fn preserve_zero_target_side_rounds_up_to_one() {
    let r = raster(64, 32);
    assert_eq!(run(&cfg(AspectMode::Preserve, FilterMode::Nearest, 0, 10), &r), (1, 1));
}

#[test]
fn empty_original_cannot_be_clipped_to_two_by_two() {
    let r = raster(6, 4);
    let empty = cfg(AspectMode::Ignore, FilterMode::Nearest, 0, 0).convert(&r);
    assert_eq!(dims(&empty), (0, 0));
    assert!(!cfg(AspectMode::Clip, FilterMode::Nearest, 2, 2).fits(&empty));
    assert!(!cfg(AspectMode::Clip, FilterMode::Nearest, 9, 3).fits(&empty));
    let one = cfg(AspectMode::Clip, FilterMode::Nearest, 1, 5);
    assert!(one.fits(&empty));
    assert_eq!(dims(&one.convert(&empty)), (1, 1));
}

#[test]
fn next_read_len_is_room_capped_by_chunk() {
    let mut b = BoundedBuffer::new(10);
    assert_eq!(b.next_read_len(4), 4);
    assert_eq!(b.next_read_len(64), 10);
    b.push_chunk(&[0; 7]);
    assert_eq!(b.next_read_len(64), 3);
    b.push_chunk(&[0; 5]);
    assert_eq!(b.next_read_len(64), 0);
}
