//! The gradient renderer and the pixel buffer it draws into.

use vstd::prelude::*;

verus! {

/// A pixel buffer: `get_height()` rows of `get_width()` packed pixels each,
/// top row first.
pub trait Buffer: Sized {
    /// The pixels, row after row.
    spec fn pixels(&self) -> Seq<u32>;

    spec fn width(&self) -> u32;

    spec fn height(&self) -> u32;

    /// Whatever there is to the buffer besides its pixels is as it is in
    /// `before`.
    spec fn kept(&self, before: &Self) -> bool;

    fn get_pixels(&self) -> (pixels: &[u32])
        ensures
            pixels@ == self.pixels(),
    ;

    /// Lends the pixels out for writing; everything else stays as it is.
    fn get_mut_pixels(&mut self) -> (pixels: &mut [u32])
        ensures
            pixels@ == old(self).pixels(),
            final(self).pixels() == final(pixels)@,
            final(self).width() == old(self).width(),
            final(self).height() == old(self).height(),
            final(self).kept(old(self)),
    ;

    fn get_height(&self) -> (height: u32)
        ensures
            height == self.height(),
    ;

    fn get_width(&self) -> (width: u32)
        ensures
            width == self.width(),
    ;
}

/// The buffer holds exactly one pixel for each position.
pub open spec fn well_formed<B: Buffer>(buffer: &B) -> bool {
    buffer.pixels().len() == buffer.width() * buffer.height()
}

/// The blue or green level at coordinate `at` under `offset`.
pub open spec fn channel(at: int, offset: i8) -> int {
    (at + offset) % 256
}

/// Green in bits 8 to 15, blue in bits 0 to 7; red and alpha are zero.
pub open spec fn pack(green: u32, blue: u32) -> u32 {
    (green << 8) | blue
}

/// The colour of the pixel in column `x` of row `y`.
pub open spec fn gradient_pixel(x: int, y: int, blue_offset: i8, green_offset: i8) -> u32 {
    pack(channel(y, green_offset) as u32, channel(x, blue_offset) as u32)
}

/// The whole picture: `height` rows of `width` gradient pixels.
pub open spec fn gradient(width: u32, height: u32, blue_offset: i8, green_offset: i8) -> Seq<u32> {
    Seq::new(
        (width * height) as nat,
        |i: int| gradient_pixel(i % (width as int), i / (width as int), blue_offset, green_offset),
    )
}

/// For levels below 256 the packed pixel is `green * 256 + blue`.
pub proof fn lemma_pack_is_positional(green: u32, blue: u32)
    requires
        green < 256,
        blue < 256,
    ensures
        pack(green, blue) == green * 256 + blue,
{
    assert((green << 8) | blue == green * 256 + blue) by (bit_vector)
        requires
            green < 256,
            blue < 256,
    ;
}

fn level(at: u32, offset: i8) -> (level: u32)
    ensures
        level == channel(at as int, offset),
{
    (((at % 256) as i32 + offset as i32 + 256) as u32) % 256
}

proof fn lemma_position(x: int, y: int, width: int, height: int)
    requires
        0 <= x < width,
        0 <= y < height,
    ensures
        0 <= y * width + x < width * height,
        (y * width + x) % width == x,
        (y * width + x) / width == y,
{
    assert(y * width + width <= width * height && 0 <= y * width) by (nonlinear_arith)
        requires
            0 <= y < height,
            0 < width,
    ;
    vstd::arithmetic::div_mod::lemma_fundamental_div_mod_converse(y * width + x, width, y, x);
}

/// Fills the buffer with a gradient: blue grows with the column, green with
/// the row, both shifted by their offsets and wrapping at 256.
pub fn render_weird_gradient<B: Buffer>(buffer: &mut B, blue_offset: i8, green_offset: i8)
    requires
        well_formed(old(buffer)),
    ensures
        final(buffer).width() == old(buffer).width(),
        final(buffer).height() == old(buffer).height(),
        final(buffer).pixels() == gradient(
            old(buffer).width(),
            old(buffer).height(),
            blue_offset,
            green_offset,
        ),
        final(buffer).kept(old(buffer)),
        well_formed(final(buffer)),
{
    let height = buffer.get_height();
    let width = buffer.get_width();
    let memory = buffer.get_mut_pixels();

    let mut pixel: usize = 0;
    let mut y: u32 = 0;
    while y < height
        invariant
            y <= height,
            memory@.len() == width * height,
            pixel == y * width,
            forall|i: int|
                0 <= i < pixel ==> memory@[i] == gradient_pixel(
                    i % (width as int),
                    i / (width as int),
                    blue_offset,
                    green_offset,
                ),
        decreases height - y,
    {
        let green = level(y, green_offset);
        let mut x: u32 = 0;
        while x < width
            invariant
                y < height,
                x <= width,
                memory@.len() == width * height,
                pixel == y * width + x,
                green == channel(y as int, green_offset),
                forall|i: int|
                    0 <= i < pixel ==> memory@[i] == gradient_pixel(
                        i % (width as int),
                        i / (width as int),
                        blue_offset,
                        green_offset,
                    ),
            decreases width - x,
        {
            proof {
                lemma_position(x as int, y as int, width as int, height as int);
            }
            let blue = level(x, blue_offset);
            memory[pixel] = (green << 8) | blue;
            x += 1;
            pixel += 1;
        }
        assert((y + 1) * width == y * width + width) by (nonlinear_arith);
        y += 1;
    }
    assert(pixel == width * height) by (nonlinear_arith)
        requires
            pixel == y * width,
            y == height,
    ;
    assert(memory@ =~= gradient(width, height, blue_offset, green_offset));
}

} // verus!
