//! Tests for the coverage canvas: pixel indexing and row shading.

use glyphshade::canvas::CoverageCanvas;
use glyphshade::canvas::PixelFormat;

const LIGHT: char = '\u{2591}';
const MEDIUM: char = '\u{2592}';
const FULL: char = '\u{2588}';

#[test]
fn byte_at_reads_row_major_with_stride() {
    // A 3x2 alpha canvas padded to a stride of 4 bytes.
    let canvas = CoverageCanvas {
        pixels: vec![10, 20, 30, 99, 40, 50, 60, 99],
        stride: 4,
        width: 3,
        height: 2,
        format: PixelFormat::A8,
    };
    assert_eq!(canvas.byte_at(0, 0, 0), 10);
    assert_eq!(canvas.byte_at(1, 0, 0), 20);
    assert_eq!(canvas.byte_at(2, 0, 0), 30);
    assert_eq!(canvas.byte_at(0, 1, 0), 40);
    assert_eq!(canvas.byte_at(1, 1, 0), 50);
    assert_eq!(canvas.byte_at(2, 1, 0), 60);
}

#[test]
fn buffer_covers_addressable_region() {
    let canvas = CoverageCanvas {
        pixels: vec![0; 8],
        stride: 4,
        width: 3,
        height: 2,
        format: PixelFormat::A8,
    };
    // stride * rows is at least width * height * bytes-per-pixel.
    assert!(canvas.stride * canvas.height >= canvas.width * canvas.height);
    assert_eq!(canvas.pixels.len(), canvas.stride * canvas.height);
    // Indexing every valid (x, y) stays inside the buffer.
    for y in 0..canvas.height {
        for x in 0..canvas.width {
            assert!(y * canvas.stride + x < canvas.pixels.len());
            canvas.byte_at(x, y, 0);
        }
    }
}

#[test]
fn shade_row_a8_doubles_each_symbol() {
    let canvas = CoverageCanvas {
        pixels: vec![0, 255, 42, 0, 128, 0],
        stride: 3,
        width: 3,
        height: 2,
        format: PixelFormat::A8,
    };
    assert_eq!(canvas.shade_row(0), vec![' ', ' ', FULL, FULL, LIGHT, LIGHT]);
    assert_eq!(canvas.shade_row(1), vec![' ', ' ', MEDIUM, MEDIUM, ' ', ' ']);
}

#[test]
fn shade_row_rgb_maps_each_channel() {
    let canvas = CoverageCanvas {
        pixels: vec![0, 255, 42, 128, 0, 255],
        stride: 6,
        width: 2,
        height: 1,
        format: PixelFormat::Rgb24,
    };
    assert_eq!(canvas.shade_row(0), vec![' ', FULL, LIGHT, MEDIUM, ' ', FULL]);
}
