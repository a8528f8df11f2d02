//! The output frame: 8-bit pixels packed row by row into an RGBA image.
//!
//! A frame of `width` by `height` pixels is a buffer of `width * height * 4`
//! bytes. Rows run top to bottom and pixels left to right within a row; each
//! pixel is four bytes, red, green, blue and an alpha that is always opaque.

use vstd::prelude::*;

verus! {

/// The alpha byte of every pixel.
pub const OPAQUE: u8 = 255;

/// One pixel as it is exported: three gamma-encoded 8-bit channels.
#[derive(Clone, Copy, Debug, PartialEq, Eq, Structural)]
pub struct Pixel {
    pub r: u8,
    pub g: u8,
    pub b: u8,
}

impl Pixel {
    /// Channel `c` of the pixel in buffer order; the fourth is the alpha.
    pub open spec fn spec_channel(self, c: int) -> u8 {
        if c == 0 {
            self.r
        } else if c == 1 {
            self.g
        } else if c == 2 {
            self.b
        } else {
            OPAQUE
        }
    }

    /// The four bytes of the pixel in buffer order.
    pub open spec fn spec_to_u8(self) -> Seq<u8> {
        seq![self.r, self.g, self.b, OPAQUE]
    }

    pub fn new(r: u8, g: u8, b: u8) -> (pixel: Pixel)
        ensures
            pixel == (Pixel { r, g, b }),
    {
        Pixel { r, g, b }
    }

    /// The pixel as RGBA bytes. Whatever the colour, the alpha is opaque.
    pub fn to_u8(&self) -> (bytes: [u8; 4])
        ensures
            bytes@ == self.spec_to_u8(),
            bytes@[3] == OPAQUE,
    {
        [self.r, self.g, self.b, OPAQUE]
    }
}

/// Number of pixels of a `width` by `height` frame.
pub open spec fn spec_pixel_count(width: u32, height: u32) -> nat {
    (width as nat) * (height as nat)
}

/// Position of pixel `(x, y)` in row order.
pub open spec fn spec_pixel_index(width: u32, x: u32, y: u32) -> nat {
    (y as nat) * (width as nat) + (x as nat)
}

/// Offset of the first byte of pixel `(x, y)` in the packed buffer.
pub open spec fn spec_pixel_offset(width: u32, x: u32, y: u32) -> nat {
    spec_pixel_index(width, x, y) * 4
}

/// The packed buffer of a sequence of pixels: four bytes for each, in order.
pub open spec fn spec_pack(pixels: Seq<Pixel>) -> Seq<u8> {
    Seq::new(4 * pixels.len(), |i: int| pixels[i / 4].spec_channel(i % 4))
}

/// Packs pixels into RGBA bytes, keeping their order.
pub fn pack(pixels: &Vec<Pixel>) -> (bytes: Vec<u8>)
    ensures
        bytes@ == spec_pack(pixels@),
{
    let mut bytes: Vec<u8> = Vec::new();
    let mut i: usize = 0;
    while i < pixels.len()
        invariant
            i <= pixels.len(),
            bytes@.len() == 4 * i,
            forall|k: int|
                0 <= k < bytes@.len() ==> #[trigger] bytes@[k] == pixels@[k / 4].spec_channel(k % 4),
        decreases pixels.len() - i,
    {
        let pixel: Pixel = pixels[i];
        bytes.push(pixel.r);
        bytes.push(pixel.g);
        bytes.push(pixel.b);
        bytes.push(OPAQUE);
        i += 1;
    }
    assert(bytes@ =~= spec_pack(pixels@));
    bytes
}

/// Pixels of a frame never share a byte: the ranges of two different pixels
/// of one frame lie four or more bytes apart, and each ends inside the buffer.
pub proof fn lemma_pixel_ranges_disjoint(
    width: u32,
    height: u32,
    x1: u32,
    y1: u32,
    x2: u32,
    y2: u32,
)
    requires
        x1 < width,
        y1 < height,
        x2 < width,
        y2 < height,
        (x1, y1) != (x2, y2),
    ensures
        spec_pixel_offset(width, x1, y1) + 4 <= spec_pixel_offset(width, x2, y2)
            || spec_pixel_offset(width, x2, y2) + 4 <= spec_pixel_offset(width, x1, y1),
        spec_pixel_offset(width, x1, y1) + 4 <= 4 * spec_pixel_count(width, height),
{
    lemma_pixel_in_frame(width, height, x1, y1);
    let w = width as int;
    if y1 < y2 {
        assert((y2 as int) * w >= (y1 as int + 1) * w) by (nonlinear_arith)
            requires
                y1 < y2,
                w >= 0,
        ;
        assert((y1 as int + 1) * w == (y1 as int) * w + w) by (nonlinear_arith);
    } else if y2 < y1 {
        assert((y1 as int) * w >= (y2 as int + 1) * w) by (nonlinear_arith)
            requires
                y2 < y1,
                w >= 0,
        ;
        assert((y2 as int + 1) * w == (y2 as int) * w + w) by (nonlinear_arith);
    }
}

/// A pixel inside the frame has an index below the pixel count.
pub proof fn lemma_pixel_in_frame(width: u32, height: u32, x: u32, y: u32)
    requires
        x < width,
        y < height,
    ensures
        spec_pixel_index(width, x, y) < spec_pixel_count(width, height),
{
    let w = width as int;
    let h = height as int;
    assert((y as int) * w + w <= w * h) by (nonlinear_arith)
        requires
            0 <= y < h,
            w >= 0,
    ;
}

/// In the packed buffer of a frame, the four bytes at the offset of pixel
/// `(x, y)` are that pixel: its red, green and blue, then the opaque alpha.
pub proof fn lemma_packed_pixel(pixels: Seq<Pixel>, width: u32, height: u32, x: u32, y: u32)
    requires
        pixels.len() == spec_pixel_count(width, height),
        x < width,
        y < height,
    ensures
        spec_pixel_offset(width, x, y) + 4 <= spec_pack(pixels).len(),
        spec_pack(pixels).subrange(
            spec_pixel_offset(width, x, y) as int,
            spec_pixel_offset(width, x, y) as int + 4,
        ) == pixels[spec_pixel_index(width, x, y) as int].spec_to_u8(),
{
    lemma_pixel_in_frame(width, height, x, y);
    let start = spec_pixel_offset(width, x, y) as int;
    assert(spec_pack(pixels).subrange(start, start + 4) =~= pixels[spec_pixel_index(
        width,
        x,
        y,
    ) as int].spec_to_u8());
}

/// A finished image. It owns an RGBA image of the `image` crate; `self@` is
/// that image's sample buffer.
#[verifier::external_body]
pub struct Frame {
    image: image::RgbaImage,
}

/// The sample buffer that an image holds, byte by byte.
pub uninterp spec fn spec_frame_bytes(frame: Frame) -> Seq<u8>;

/// Width and height that an image was made with.
pub uninterp spec fn spec_frame_dimensions(frame: Frame) -> (u32, u32);

impl View for Frame {
    type V = Seq<u8>;

    open spec fn view(&self) -> Seq<u8> {
        spec_frame_bytes(*self)
    }
}

/// A buffer of `len` bytes can back a `width` by `height` RGBA image: the
/// byte count of one row and of the whole image fit the machine, and the
/// buffer holds that many bytes.
pub open spec fn spec_fits(width: u32, height: u32, len: nat) -> bool {
    4 * width <= usize::MAX && 4 * spec_pixel_count(width, height) <= len
}

/// `image::ImageBuffer::from_vec`: an image over `bytes` as they are, with
/// the given dimensions, or `None` when the buffer is too short for them or
/// their byte count overflows.
#[verifier::external_body]
pub(crate) fn frame_from_vec(width: u32, height: u32, bytes: Vec<u8>) -> (made: Option<Frame>)
    ensures
        made is Some <==> spec_fits(width, height, bytes@.len()),
        made matches Some(frame) ==> spec_frame_bytes(frame) == bytes@ && spec_frame_dimensions(
            frame,
        ) == (width, height),
{
    match image::ImageBuffer::from_vec(width, height, bytes) {
        Some(image) => Some(Frame { image }),
        None => None,
    }
}

/// `image::ImageBuffer::dimensions`: the width and height given at
/// construction.
#[verifier::external_body]
fn frame_dimensions(frame: &Frame) -> (size: (u32, u32))
    ensures
        size == spec_frame_dimensions(*frame),
{
    frame.image.dimensions()
}

/// `image::ImageBuffer::into_raw`: the sample buffer, unchanged.
#[verifier::external_body]
fn frame_into_raw(frame: Frame) -> (bytes: Vec<u8>)
    ensures
        bytes@ == spec_frame_bytes(frame),
{
    frame.image.into_raw()
}

/// `image::ImageBuffer::get_pixel`: for a pixel inside the image, the four
/// samples that start at `(y * width + x) * 4` in the buffer. Outside the
/// image the call panics.
#[verifier::external_body]
fn frame_get_pixel(frame: &Frame, x: u32, y: u32) -> (samples: [u8; 4])
    requires
        x < spec_frame_dimensions(*frame).0,
        y < spec_frame_dimensions(*frame).1,
    ensures
        forall|c: int|
            0 <= c < 4 ==> #[trigger] samples@[c] == spec_frame_bytes(*frame)[spec_pixel_offset(
                spec_frame_dimensions(*frame).0,
                x,
                y,
            ) + c],
{
    frame.image.get_pixel(x, y).0
}

impl Frame {
    pub open spec fn spec_width(self) -> u32 {
        spec_frame_dimensions(self).0
    }

    pub open spec fn spec_height(self) -> u32 {
        spec_frame_dimensions(self).1
    }

    pub fn width(&self) -> (w: u32)
        ensures
            w == self.spec_width(),
    {
        frame_dimensions(self).0
    }

    pub fn height(&self) -> (h: u32)
        ensures
            h == self.spec_height(),
    {
        frame_dimensions(self).1
    }

    /// The four bytes of pixel `(x, y)`, or `None` outside the frame.
    pub fn get_pixel(&self, x: u32, y: u32) -> (samples: Option<[u8; 4]>)
        ensures
            samples is Some <==> x < self.spec_width() && y < self.spec_height(),
            samples matches Some(s) ==> forall|c: int|
                0 <= c < 4 ==> #[trigger] s@[c] == self@[spec_pixel_offset(self.spec_width(), x, y)
                    + c],
    {
        let size: (u32, u32) = frame_dimensions(self);
        if x < size.0 && y < size.1 {
            Some(frame_get_pixel(self, x, y))
        } else {
            None
        }
    }

    /// Gives up the image for its bytes: `width * height * 4` of them, row by
    /// row.
    pub fn into_raw(self) -> (bytes: Vec<u8>)
        ensures
            bytes@ == self@,
    {
        frame_into_raw(self)
    }
}

} // verus!
