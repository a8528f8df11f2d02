//! Texture lookup: a texel coordinate on the unbounded integer grid is wrapped
//! into the image, which then repeats in both directions, and the texel found
//! there gives the colour.

use vstd::prelude::*;
use crate::frame::Pixel;

verus! {

#[verifier::external_type_specification]
#[verifier::external_body]
pub struct ExDynamicImage(image::DynamicImage);

/// Width and height of a texture.
pub uninterp spec fn spec_texture_dimensions(texture: image::DynamicImage) -> (u32, u32);

/// The texels of a texture as 8-bit RGBA samples, by column and row.
pub uninterp spec fn spec_texels(texture: image::DynamicImage) -> Map<(u32, u32), Seq<u8>>;

/// `image::GenericImageView::dimensions` of a `DynamicImage`: its width and
/// height.
#[verifier::external_body]
fn texture_dimensions(texture: &image::DynamicImage) -> (size: (u32, u32))
    ensures
        size == spec_texture_dimensions(*texture),
{
    image::GenericImageView::dimensions(texture)
}

/// `image::GenericImageView::get_pixel` of a `DynamicImage`: the texel in
/// column `x` of row `y`, converted to 8-bit RGBA. Outside the image the call
/// panics.
#[verifier::external_body]
fn texture_get_pixel(texture: &image::DynamicImage, x: u32, y: u32) -> (samples: [u8; 4])
    requires
        x < spec_texture_dimensions(*texture).0,
        y < spec_texture_dimensions(*texture).1,
    ensures
        samples@ == spec_texels(*texture)[(x, y)],
{
    image::GenericImageView::get_pixel(texture, x, y).0
}

/// Wraps a coordinate into `0..bound`: the remainder of `coord` by `bound`
/// that is not negative. Coordinates left of or above the origin wrap to the
/// far side.
pub fn wrap(coord: i32, bound: u32) -> (wrapped: u32)
    requires
        bound > 0,
    ensures
        wrapped == (coord as int) % (bound as int),
        wrapped < bound,
{
    let b: i64 = bound as i64;
    let c: i64 = coord as i64;
    if c >= 0 {
        (c % b) as u32
    } else {
        let back: i64 = (-c) % b;
        proof {
            lemma_negated_remainder(c as int, b as int);
        }
        if back == 0 {
            0
        } else {
            (b - back) as u32
        }
    }
}

/// The remainder of a negative number from that of its opposite.
proof fn lemma_negated_remainder(c: int, b: int)
    requires
        c < 0,
        b > 0,
    ensures
        c % b == if (-c) % b == 0 {
            0
        } else {
            b - (-c) % b
        },
{
    let q = (-c) / b;
    let r = (-c) % b;
    assert(-c == b * q + r) by {
        vstd::arithmetic::div_mod::lemma_fundamental_div_mod(-c, b);
    }
    if r == 0 {
        assert(c == b * (-q)) by (nonlinear_arith)
            requires
                -c == b * q + r,
                r == 0,
        ;
        vstd::arithmetic::div_mod::lemma_fundamental_div_mod_converse(c, b, -q, 0);
    } else {
        assert(c == b * (-q - 1) + (b - r)) by (nonlinear_arith)
            requires
                -c == b * q + r,
        ;
        vstd::arithmetic::div_mod::lemma_fundamental_div_mod_converse(c, b, -q - 1, b - r);
    }
}

/// The colour of the texel that `(x, y)` wraps to.
pub open spec fn spec_color_at(texture: image::DynamicImage, x: i32, y: i32) -> Pixel {
    let (width, height) = spec_texture_dimensions(texture);
    let samples = spec_texels(texture)[(
        ((x as int) % (width as int)) as u32,
        ((y as int) % (height as int)) as u32,
    )];
    Pixel { r: samples[0], g: samples[1], b: samples[2] }
}

/// Looks a colour up in a texture that repeats in both directions: the red,
/// green and blue of the texel at `(x, y)` wrapped into the image. A texture
/// without texels has no colour to give.
pub fn color_at(texture: &image::DynamicImage, x: i32, y: i32) -> (color: Option<Pixel>)
    ensures
        color is Some <==> spec_texture_dimensions(*texture).0 > 0 && spec_texture_dimensions(
            *texture,
        ).1 > 0,
        color matches Some(c) ==> c == spec_color_at(*texture, x, y),
{
    let size: (u32, u32) = texture_dimensions(texture);
    if size.0 == 0 || size.1 == 0 {
        return None;
    }
    let samples: [u8; 4] = texture_get_pixel(texture, wrap(x, size.0), wrap(y, size.1));
    Some(Pixel { r: samples[0], g: samples[1], b: samples[2] })
}

} // verus!
