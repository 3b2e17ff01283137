//! Deterministic generation of a full-frame pixel buffer for a viewport size.
use vstd::arithmetic::div_mod::lemma_fundamental_div_mod_converse;
use vstd::prelude::*;

verus! {

/// One 8-bit-per-channel color sample, without alpha.
#[derive(Clone, Copy, Debug, PartialEq, Eq, Structural)]
pub struct Rgb {
    pub r: u8,
    pub g: u8,
    pub b: u8,
}

/// Intensity of a channel at position `i` along an axis of length `n`:
/// `floor(255 * i / n)`.
pub open spec fn channel_value(i: int, n: int) -> int {
    255 * i / n
}

/// The color of the pixel at column `x`, row `y` of a `width` x `height` frame.
pub open spec fn pixel_at(width: nat, height: nat, x: int, y: int) -> Rgb {
    Rgb { r: channel_value(x, width as int) as u8, g: channel_value(y, height as int) as u8, b: 0 }
}

/// The whole frame, row-major, top to bottom and left to right: the sample at
/// index `i` lies at column `i % width`, row `i / width`.
pub open spec fn frame_pixels(width: nat, height: nat) -> Seq<Rgb> {
    Seq::new(width * height, |i: int| pixel_at(width, height, i % width as int, i / width as int))
}

proof fn lemma_channel_bounded(i: int, n: int)
    requires
        0 <= i < n,
    ensures
        0 <= channel_value(i, n) < 255,
{
    assert(0 <= 255 * i / n < 255) by (nonlinear_arith)
        requires
            0 <= i < n,
    ;
}

proof fn lemma_row_major_index(width: int, height: int, x: int, y: int)
    requires
        0 <= x < width,
        0 <= y < height,
    ensures
        0 <= y * width + x < width * height,
        (y * width + x) % width == x,
        (y * width + x) / width == y,
{
    assert(0 <= y * width + x < width * height) by (nonlinear_arith)
        requires
            0 <= x < width,
            0 <= y < height,
    ;
    lemma_fundamental_div_mod_converse(y * width + x, width, y, x);
}

/// `floor(255 * i / n)` as a byte, computed without overflow.
fn channel(i: usize, n: usize) -> (c: u8)
    requires
        i < n,
    ensures
        c as int == channel_value(i as int, n as int),
{
    proof {
        lemma_channel_bounded(i as int, n as int);
    }
    let wide: u128 = (i as u128) * 255 / (n as u128);
    wide as u8
}

/// Generates the frame for a `width` x `height` viewport.
///
/// A zero width or height yields an empty buffer. The result depends on the
/// two dimensions alone.
pub fn generate(width: usize, height: usize) -> (pixels: Vec<Rgb>)
    requires
        width * height <= usize::MAX,
    ensures
        pixels@ == frame_pixels(width as nat, height as nat),
        pixels@.len() == width * height,
        width == 0 || height == 0 ==> pixels@ == Seq::<Rgb>::empty(),
{
    let ghost target = frame_pixels(width as nat, height as nat);
    let mut pixels: Vec<Rgb> = Vec::with_capacity(width * height);
    if width == 0 || height == 0 {
        assert(pixels@ =~= target);
        return pixels;
    }
    let mut y: usize = 0;
    while y < height
        invariant
            0 < width,
            y <= height,
            target == frame_pixels(width as nat, height as nat),
            width * height <= usize::MAX,
            pixels@ == target.take(y * width),
        decreases height - y,
    {
        let mut x: usize = 0;
        while x < width
            invariant
                0 < width,
                x <= width,
                y < height,
                target == frame_pixels(width as nat, height as nat),
                width * height <= usize::MAX,
                pixels@ == target.take(y * width + x),
            decreases width - x,
        {
            let ghost k = y * width + x;
            proof {
                lemma_row_major_index(width as int, height as int, x as int, y as int);
                assert(target.take(k + 1) =~= target.take(k).push(target[k]));
            }
            let p = Rgb { r: channel(x, width), g: channel(y, height), b: 0 };
            pixels.push(p);
            x = x + 1;
        }
        y = y + 1;
        proof {
            assert(y * width == (y - 1) * width + width) by (nonlinear_arith);
        }
    }
    proof {
        assert(height * width == width * height) by (nonlinear_arith);
        assert(pixels@ =~= target);
    }
    pixels
}

/// Every sample of a frame has red `floor(255 * x / width)`, green
/// `floor(255 * y / height)` and blue zero, where `x` is its column and `y` its
/// row, and it lies at index `y * width + x`.
pub proof fn lemma_frame_pixel_colors(width: nat, height: nat, x: int, y: int)
    requires
        0 <= x < width,
        0 <= y < height,
    ensures
        0 <= y * width + x < frame_pixels(width, height).len(),
        frame_pixels(width, height)[y * width + x].r as int == 255 * x / width as int,
        frame_pixels(width, height)[y * width + x].g as int == 255 * y / height as int,
        frame_pixels(width, height)[y * width + x].b == 0,
{
    lemma_row_major_index(width as int, height as int, x, y);
    lemma_channel_bounded(x, width as int);
    lemma_channel_bounded(y, height as int);
}

/// Generation is deterministic: two buffers generated for the same dimensions
/// hold the same samples in the same order.
pub proof fn lemma_generate_deterministic(width: nat, height: nat, first: Seq<Rgb>, second: Seq<Rgb>)
    requires
        first == frame_pixels(width, height),
        second == frame_pixels(width, height),
    ensures
        first == second,
{
}

} // verus!
