use image::{DynamicImage, GrayImage, Luma, Rgb, RgbImage, Rgba, RgbaImage};
use raytracer::frame::Pixel;
use raytracer::texture::{color_at, wrap};

/// A 4 by 3 texture whose texel `(x, y)` is `(10x, 10y, x + y, 77)`.
fn texture() -> DynamicImage {
    DynamicImage::ImageRgba8(RgbaImage::from_fn(4, 3, |x, y| {
        Rgba([10 * x as u8, 10 * y as u8, (x + y) as u8, 77])
    }))
}

#[test]
fn wrap_inside_the_bound_is_the_identity() {
    assert_eq!(wrap(0, 8), 0);
    assert_eq!(wrap(3, 8), 3);
    assert_eq!(wrap(7, 8), 7);
}

#[test]
fn wrap_beyond_the_bound_starts_over() {
    assert_eq!(wrap(8, 8), 0);
    assert_eq!(wrap(9, 8), 1);
    assert_eq!(wrap(17, 8), 1);
    assert_eq!(wrap(i32::MAX, 8), 7);
}

#[test]
fn wrap_below_zero_comes_from_the_far_side() {
    assert_eq!(wrap(-1, 8), 7);
    assert_eq!(wrap(-8, 8), 0);
    assert_eq!(wrap(-9, 8), 7);
    assert_eq!(wrap(-3, 10), 7);
    assert_eq!(wrap(i32::MIN, 8), 0);
    assert_eq!(wrap(i32::MIN, 10), 2);
}

#[test]
fn wrap_into_one_is_zero() {
    assert_eq!(wrap(0, 1), 0);
    assert_eq!(wrap(5, 1), 0);
    assert_eq!(wrap(-5, 1), 0);
}

#[test]
fn wrap_into_a_huge_bound() {
    assert_eq!(wrap(5, u32::MAX), 5);
    assert_eq!(wrap(-1, u32::MAX), u32::MAX - 1);
    assert_eq!(wrap(i32::MIN, u32::MAX), u32::MAX - (1 << 31));
}

#[test]
fn wrap_agrees_with_the_euclidean_remainder() {
    for bound in [1u32, 2, 3, 7, 64, 800] {
        for coord in -2000..2000 {
            assert_eq!(
                wrap(coord, bound) as i64,
                (coord as i64).rem_euclid(bound as i64)
            );
        }
    }
}

#[test]
fn color_at_reads_the_texel() {
    let t = texture();
    assert_eq!(color_at(&t, 0, 0), Some(Pixel::new(0, 0, 0)));
    assert_eq!(color_at(&t, 3, 0), Some(Pixel::new(30, 0, 3)));
    assert_eq!(color_at(&t, 1, 2), Some(Pixel::new(10, 20, 3)));
    assert_eq!(color_at(&t, 3, 2), Some(Pixel::new(30, 20, 5)));
}

#[test]
fn color_at_repeats_the_texture() {
    let t = texture();
    assert_eq!(color_at(&t, 4, 3), Some(Pixel::new(0, 0, 0)));
    assert_eq!(color_at(&t, 5, 4), Some(Pixel::new(10, 10, 2)));
    assert_eq!(color_at(&t, -1, -1), Some(Pixel::new(30, 20, 5)));
    assert_eq!(color_at(&t, -4, -3), Some(Pixel::new(0, 0, 0)));
    assert_eq!(color_at(&t, 401, -299), Some(Pixel::new(10, 10, 2)));
}

#[test]
fn color_at_tells_columns_from_rows() {
    let t = texture();
    assert_eq!(color_at(&t, 2, 1), Some(Pixel::new(20, 10, 3)));
    assert_eq!(color_at(&t, 1, 2), Some(Pixel::new(10, 20, 3)));
}

#[test]
fn color_at_drops_the_alpha() {
    let t = DynamicImage::ImageRgba8(RgbaImage::from_pixel(2, 2, Rgba([9, 8, 7, 0])));
    assert_eq!(color_at(&t, 1, 1), Some(Pixel::new(9, 8, 7)));
}

#[test]
fn color_at_of_an_rgb_texture() {
    let t = DynamicImage::ImageRgb8(RgbImage::from_pixel(2, 2, Rgb([200, 100, 50])));
    assert_eq!(color_at(&t, 7, -7), Some(Pixel::new(200, 100, 50)));
}

#[test]
fn color_at_of_a_gray_texture_is_gray() {
    let t = DynamicImage::ImageLuma8(GrayImage::from_pixel(1, 1, Luma([123])));
    assert_eq!(color_at(&t, 0, 0), Some(Pixel::new(123, 123, 123)));
}

#[test]
fn color_at_of_an_empty_texture_is_nothing() {
    assert_eq!(color_at(&DynamicImage::new_rgba8(0, 0), 0, 0), None);
    assert_eq!(color_at(&DynamicImage::new_rgba8(0, 5), 1, 1), None);
    assert_eq!(color_at(&DynamicImage::new_rgba8(5, 0), 1, 1), None);
}
