//! The frame buffer and the bitmap description the display call needs.

use crate::game;
use vstd::prelude::*;

verus! {

/// The compression tag of an uncompressed bitmap.
pub const BI_RGB: u32 = 0;

/// The size in bytes of a bitmap header as the display call expects it.
pub const BITMAP_INFO_HEADER_SIZE: u32 = 40;

/// The fields of a device-independent bitmap header.
#[derive(Clone, Copy, Debug, PartialEq, Eq, Structural)]
pub struct BitmapInfoHeader {
    pub size: u32,
    pub width: i32,
    pub height: i32,
    pub planes: u16,
    pub bit_count: u16,
    pub compression: u32,
    pub size_image: u32,
    pub x_pels_per_meter: i32,
    pub y_pels_per_meter: i32,
    pub clr_used: u32,
    pub clr_important: u32,
}

/// One entry of a bitmap's colour table.
#[derive(Clone, Copy, Debug, PartialEq, Eq, Structural)]
pub struct RgbQuad {
    pub blue: u8,
    pub green: u8,
    pub red: u8,
    pub reserved: u8,
}

/// A bitmap header with its one-entry colour table.
#[derive(Clone, Copy, Debug, PartialEq, Eq, Structural)]
pub struct BitmapInfo {
    pub header: BitmapInfoHeader,
    pub colors: RgbQuad,
}

/// Describes `width` by `height` pixels of 32 bits, uncompressed, in one
/// plane. The height is negated: the first row is the top one.
pub open spec fn top_down_bitmap(width: u32, height: u32) -> BitmapInfo {
    BitmapInfo {
        header: BitmapInfoHeader {
            size: BITMAP_INFO_HEADER_SIZE,
            width: width as i32,
            height: (-(height as int)) as i32,
            planes: 1,
            bit_count: 32,
            compression: BI_RGB,
            size_image: 0,
            x_pels_per_meter: 0,
            y_pels_per_meter: 0,
            clr_used: 0,
            clr_important: 0,
        },
        colors: RgbQuad { blue: 0, green: 0, red: 0, reserved: 0 },
    }
}

/// A frame buffer of 32-bit pixels, top row first.
pub struct Buffer {
    info: BitmapInfo,
    pixels: Vec<u32>,
    width: u32,
    height: u32,
}

impl Buffer {
    /// The bitmap description that goes with the pixels.
    pub closed spec fn bitmap(&self) -> BitmapInfo {
        self.info
    }

    /// A black frame of `width` by `height` pixels.
    pub fn new(width: u32, height: u32) -> (buffer: Self)
        requires
            width <= i32::MAX,
            height <= i32::MAX,
            width * height <= u32::MAX,
        ensures
            game::graphics::Buffer::width(&buffer) == width,
            game::graphics::Buffer::height(&buffer) == height,
            game::graphics::Buffer::pixels(&buffer) == Seq::new(
                (width * height) as nat,
                |i: int| 0u32,
            ),
            buffer.bitmap() == top_down_bitmap(width, height),
            game::graphics::well_formed(&buffer),
    {
        let header = BitmapInfoHeader {
            size: BITMAP_INFO_HEADER_SIZE,
            width: width as i32,
            height: -(height as i32),
            planes: 1,
            bit_count: 32,
            compression: BI_RGB,
            size_image: 0,
            x_pels_per_meter: 0,
            y_pels_per_meter: 0,
            clr_used: 0,
            clr_important: 0,
        };
        let colors = RgbQuad { blue: 0, green: 0, red: 0, reserved: 0 };
        let pixels = vec![0u32; (width * height) as usize];
        assert(pixels@ =~= Seq::new((width * height) as nat, |i: int| 0u32));
        Self { info: BitmapInfo { header, colors }, pixels, width, height }
    }

    /// The bitmap description to hand to the display call with the pixels.
    pub fn info(&self) -> (info: &BitmapInfo)
        ensures
            *info == self.bitmap(),
    {
        &self.info
    }
}

impl game::graphics::Buffer for Buffer {
    closed spec fn pixels(&self) -> Seq<u32> {
        self.pixels@
    }

    closed spec fn width(&self) -> u32 {
        self.width
    }

    closed spec fn height(&self) -> u32 {
        self.height
    }

    open spec fn kept(&self, before: &Self) -> bool {
        self.bitmap() == before.bitmap()
    }

    fn get_pixels(&self) -> (pixels: &[u32]) {
        self.pixels.as_slice()
    }

    fn get_mut_pixels(&mut self) -> (pixels: &mut [u32]) {
        self.pixels.as_mut_slice()
    }

    fn get_height(&self) -> (height: u32) {
        self.height
    }

    fn get_width(&self) -> (width: u32) {
        self.width
    }
}

} // verus!
