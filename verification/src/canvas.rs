//! The glyph bounding box, the coverage canvas, and the pairing of the two
//! that one rendered glyph produces.
//!
//! A canvas stores one byte per channel in row-major order; its row stride
//! (bytes per row) may exceed the width for padded formats. The
//! well-formedness predicates below guarantee that indexing a pixel byte as
//! `y * stride + x * bytes_per_pixel + channel` stays inside the buffer.

use vstd::prelude::*;

use crate::shade::shade;
use crate::shade::shade_spec;

verus! {

/// The pixel format of a coverage canvas. Only `A8` (one alpha byte per
/// pixel) is produced by the rasterizer; `Rgb24` rows can still be shaded.
#[derive(Clone, Copy, PartialEq, Eq, Structural, Debug)]
pub enum PixelFormat {
    /// One alpha byte per pixel.
    A8,
    /// Three color bytes per pixel.
    Rgb24,
    /// Four color bytes per pixel.
    Rgba32,
}

impl PixelFormat {
    /// How many bytes one pixel occupies.
    pub open spec fn spec_bytes_per_pixel(self) -> int {
        match self {
            PixelFormat::A8 => 1,
            PixelFormat::Rgb24 => 3,
            PixelFormat::Rgba32 => 4,
        }
    }

    /// How many bytes one pixel occupies.
    pub fn bytes_per_pixel(self) -> (n: usize)
        ensures
            n == self.spec_bytes_per_pixel(),
    {
        match self {
            PixelFormat::A8 => 1,
            PixelFormat::Rgb24 => 3,
            PixelFormat::Rgba32 => 4,
        }
    }
}

/// The axis-aligned integer pixel rectangle that a glyph occupies when
/// rendered at a given point size.
#[derive(Clone, Copy, PartialEq, Eq, Structural, Debug)]
pub struct BoundingBox {
    /// Horizontal pixel coordinate of the top-left corner.
    pub origin_x: i32,
    /// Vertical pixel coordinate of the top-left corner.
    pub origin_y: i32,
    /// Width in pixels.
    pub width: i32,
    /// Height in pixels.
    pub height: i32,
}

impl BoundingBox {
    /// A bounding box never has negative dimensions.
    pub open spec fn wf(self) -> bool {
        0 <= self.width && 0 <= self.height
    }
}

/// A single-channel-per-byte pixel buffer holding glyph coverage, in
/// row-major order with a fixed row stride.
#[derive(Debug)]
pub struct CoverageCanvas {
    /// The raw bytes, `stride * height` of them.
    pub pixels: Vec<u8>,
    /// Bytes between the starts of successive rows; at least
    /// `width * bytes_per_pixel`.
    pub stride: usize,
    /// Width of the addressable region, in pixels.
    pub width: usize,
    /// Height of the addressable region, in rows.
    pub height: usize,
    /// How the bytes of one pixel are laid out.
    pub format: PixelFormat,
}

impl CoverageCanvas {
    /// The buffer covers the whole addressable pixel region: every byte index
    /// `y * stride + x * bytes_per_pixel + channel` of a valid pixel lies
    /// inside `pixels`.
    pub open spec fn wf(self) -> bool {
        &&& self.width * self.format.spec_bytes_per_pixel() <= self.stride
        &&& self.pixels@.len() == self.stride * self.height
    }

    /// Reads one byte of the pixel at column `x`, row `y`, channel `channel`.
    pub fn byte_at(&self, x: usize, y: usize, channel: usize) -> (b: u8)
        requires
            self.wf(),
            x < self.width,
            y < self.height,
            channel < self.format.spec_bytes_per_pixel(),
        ensures
            b == self.pixels@[y * self.stride + x * self.format.spec_bytes_per_pixel()
                + channel],
    {
        proof {
            lemma_pixel_index_in_bounds(*self, x as int, y as int, channel as int);
            assert(0 <= x * self.format.spec_bytes_per_pixel()) by (nonlinear_arith)
                requires
                    0 <= x,
                    0 <= self.format.spec_bytes_per_pixel(),
            ;
            assert(0 <= y * self.stride) by (nonlinear_arith)
                requires
                    0 <= y,
                    0 <= self.stride,
            ;
        }
        let buffer_len = self.pixels.len();
        let bpp = self.format.bytes_per_pixel();
        assert(y * self.stride + x * bpp + channel < buffer_len);
        self.pixels[y * self.stride + x * bpp + channel]
    }
}

/// The buffer of a well-formed canvas is at least as large as its addressable
/// pixel region, and row-major indexing of any valid pixel byte stays inside
/// the buffer.
pub proof fn lemma_pixel_index_in_bounds(c: CoverageCanvas, x: int, y: int, channel: int)
    requires
        c.wf(),
        0 <= x < c.width,
        0 <= y < c.height,
        0 <= channel < c.format.spec_bytes_per_pixel(),
    ensures
        c.width * c.format.spec_bytes_per_pixel() * c.height <= c.pixels@.len(),
        0 <= y * c.stride + x * c.format.spec_bytes_per_pixel() + channel < c.pixels@.len(),
{
    let bpp = c.format.spec_bytes_per_pixel();
    assert(c.width * bpp * c.height <= c.stride * c.height) by (nonlinear_arith)
        requires
            c.width * bpp <= c.stride,
            0 <= c.height,
    ;
    assert(0 <= y * c.stride + x * bpp + channel < c.stride * c.height) by (nonlinear_arith)
        requires
            0 <= x < c.width,
            0 <= y < c.height,
            0 <= channel < bpp,
            c.width * bpp <= c.stride,
    ;
}

/// The pairing of a glyph's bounding box with the coverage canvas painted for
/// it; one input character yields one of these.
#[derive(Debug)]
pub struct GlyphRenderResult {
    /// The pixel rectangle the glyph occupies.
    pub bounds: BoundingBox,
    /// The coverage painted for the glyph, sized to the bounding box.
    pub canvas: CoverageCanvas,
}

impl GlyphRenderResult {
    /// The canvas's addressable pixel region equals the bounding box.
    pub open spec fn wf(self) -> bool {
        &&& self.bounds.wf()
        &&& self.canvas.wf()
        &&& self.canvas.width == self.bounds.width
        &&& self.canvas.height == self.bounds.height
    }
}

/// One shaded terminal line for row `y` of an alpha canvas: each pixel's
/// density symbol, emitted twice to approximate a square aspect ratio.
pub open spec fn shaded_row_a8(c: CoverageCanvas, y: int) -> Seq<char> {
    Seq::new((2 * c.width) as nat, |i: int| shade_spec(c.pixels@[y * c.stride + i / 2]))
}

/// One shaded terminal line for row `y` of an RGB canvas: each color channel
/// mapped to its own density symbol, in byte order.
pub open spec fn shaded_row_rgb(c: CoverageCanvas, y: int) -> Seq<char> {
    Seq::new((3 * c.width) as nat, |i: int| shade_spec(c.pixels@[y * c.stride + i]))
}

impl CoverageCanvas {
    /// Maps row `y` of the canvas through the shade mapper: doubled symbols
    /// for an alpha canvas, one symbol per color channel for an RGB canvas.
    pub fn shade_row(&self, y: usize) -> (line: Vec<char>)
        requires
            self.wf(),
            y < self.height,
            !(self.format is Rgba32),
        ensures
            self.format is A8 ==> line@ == shaded_row_a8(*self, y as int),
            self.format is Rgb24 ==> line@ == shaded_row_rgb(*self, y as int),
    {
        let mut line: Vec<char> = Vec::new();
        match self.format {
            PixelFormat::A8 => {
                let mut x: usize = 0;
                while x < self.width
                    invariant
                        self.wf(),
                        self.format is A8,
                        y < self.height,
                        x <= self.width,
                        line@.len() == 2 * x,
                        line@ =~= shaded_row_a8(*self, y as int).subrange(0, 2 * x as int),
                    decreases self.width - x,
                {
                    let symbol = shade(self.byte_at(x, y, 0));
                    line.push(symbol);
                    line.push(symbol);
                    proof {
                        assert((2 * x as int) / 2 == x as int);
                        assert((2 * x as int + 1) / 2 == x as int);
                        assert(line@ =~= shaded_row_a8(*self, y as int).subrange(
                            0,
                            2 * (x + 1) as int,
                        ));
                    }
                    x = x + 1;
                }
                proof {
                    assert(line@ =~= shaded_row_a8(*self, y as int));
                }
            },
            PixelFormat::Rgb24 => {
                let mut x: usize = 0;
                while x < self.width
                    invariant
                        self.wf(),
                        self.format is Rgb24,
                        y < self.height,
                        x <= self.width,
                        line@.len() == 3 * x,
                        line@ =~= shaded_row_rgb(*self, y as int).subrange(0, 3 * x as int),
                    decreases self.width - x,
                {
                    line.push(shade(self.byte_at(x, y, 0)));
                    line.push(shade(self.byte_at(x, y, 1)));
                    line.push(shade(self.byte_at(x, y, 2)));
                    proof {
                        assert(line@ =~= shaded_row_rgb(*self, y as int).subrange(
                            0,
                            3 * (x + 1) as int,
                        ));
                    }
                    x = x + 1;
                }
                proof {
                    assert(line@ =~= shaded_row_rgb(*self, y as int));
                }
            },
            PixelFormat::Rgba32 => {
                proof {
                    assert(false);
                }
            },
        }
        line
    }
}

} // verus!
