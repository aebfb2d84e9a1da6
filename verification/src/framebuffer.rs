//! The pixel memory that the driver keeps for the whole screen.
//!
//! Every pixel takes two bytes, high byte first, in RGB565. The memory is laid out for the
//! panel as it is built, 96 pixels wide and 64 high; where a pixel of the rotated picture
//! goes is worked out here.
//!
//! Positions are whole numbers in the model, so that one statement covers callers that
//! count from zero and callers whose coordinates may be negative.

use vstd::prelude::*;

use embedded_graphics_core::geometry::{Point, Size};
use embedded_graphics_core::primitives::Rectangle;

use crate::displayrotation::DisplayRotation;
use crate::{DISPLAY_HEIGHT, DISPLAY_WIDTH};

verus! {

/// 96px x 64px screen with 16 bits (2 bytes) per pixel
pub const BUF_SIZE: usize = 12288;

/// The buffer holds two bytes for every pixel of the panel.
pub proof fn lemma_buffer_size()
    ensures
        BUF_SIZE == DISPLAY_WIDTH * DISPLAY_HEIGHT * 2,
{
}

/// Whether (x, y) is a pixel of the picture in this orientation.
pub open spec fn pixel_in_bounds(rotation: DisplayRotation, x: int, y: int) -> bool {
    0 <= x < rotation.spec_dimensions().0 && 0 <= y < rotation.spec_dimensions().1
}

/// Where the high byte of pixel (x, y) lies in the buffer. The low byte follows it.
///
/// Upright, a row of the picture is a row of the panel, `DISPLAY_WIDTH` pixels long. On its
/// side a row of the picture is `DISPLAY_HEIGHT` pixels long.
pub open spec fn pixel_offset(rotation: DisplayRotation, x: int, y: int) -> int {
    if rotation.is_sideways() {
        (y * DISPLAY_HEIGHT + x) * 2
    } else {
        (y * DISPLAY_WIDTH + x) * 2
    }
}

/// The more significant byte of a colour.
pub open spec fn high_byte(value: u16) -> u8 {
    (value / 256) as u8
}

/// The less significant byte of a colour.
pub open spec fn low_byte(value: u16) -> u8 {
    (value % 256) as u8
}

/// The buffer after pixel (x, y) was set to `value`: the pixel's two bytes hold the colour,
/// high byte first, and a position outside the picture changes nothing.
pub open spec fn with_pixel(
    buffer: Seq<u8>,
    rotation: DisplayRotation,
    x: int,
    y: int,
    value: u16,
) -> Seq<u8> {
    if pixel_in_bounds(rotation, x, y) {
        let at = pixel_offset(rotation, x, y);
        buffer.update(at, high_byte(value)).update(at + 1, low_byte(value))
    } else {
        buffer
    }
}

/// A buffer with every pixel black.
pub open spec fn blank() -> Seq<u8> {
    Seq::new(BUF_SIZE as nat, |i: int| 0u8)
}

/// Every pixel of the picture has its two bytes inside the buffer.
pub proof fn lemma_pixel_offset_in_buffer(rotation: DisplayRotation, x: int, y: int)
    requires
        pixel_in_bounds(rotation, x, y),
    ensures
        0 <= pixel_offset(rotation, x, y) < BUF_SIZE - 1,
        pixel_offset(rotation, x, y) % 2 == 0,
{
    if rotation.is_sideways() {
        assert(y * DISPLAY_HEIGHT + x <= 95 * 64 + 63) by (nonlinear_arith)
            requires
                0 <= x <= 63,
                0 <= y <= 95,
                DISPLAY_HEIGHT == 64,
        ;
    } else {
        assert(y * DISPLAY_WIDTH + x <= 63 * 96 + 95) by (nonlinear_arith)
            requires
                0 <= x <= 95,
                0 <= y <= 63,
                DISPLAY_WIDTH == 96,
        ;
    }
}

/// Two different pixels of the picture never share a byte of the buffer.
pub proof fn lemma_pixels_apart(rotation: DisplayRotation, x1: int, y1: int, x2: int, y2: int)
    requires
        pixel_in_bounds(rotation, x1, y1),
        pixel_in_bounds(rotation, x2, y2),
        x1 != x2 || y1 != y2,
    ensures
        pixel_offset(rotation, x1, y1) != pixel_offset(rotation, x2, y2),
        pixel_offset(rotation, x1, y1) != pixel_offset(rotation, x2, y2) + 1,
        pixel_offset(rotation, x1, y1) + 1 != pixel_offset(rotation, x2, y2),
{
    lemma_pixel_offset_in_buffer(rotation, x1, y1);
    lemma_pixel_offset_in_buffer(rotation, x2, y2);
    let row: int = if rotation.is_sideways() {
        64
    } else {
        96
    };
    assert(y1 * row + x1 != y2 * row + x2) by (nonlinear_arith)
        requires
            0 <= x1 < row,
            0 <= x2 < row,
            x1 != x2 || y1 != y2,
            0 <= y1,
            0 <= y2,
    {
        if y1 < y2 {
            assert(y1 * row + row <= y2 * row);
        } else if y2 < y1 {
            assert(y2 * row + row <= y1 * row);
        }
    }
}

/// Set the value for an individual pixel.
///
/// A position outside the picture in this orientation is ignored.
pub fn set_pixel(
    buffer: &mut [u8; BUF_SIZE],
    rotation: DisplayRotation,
    x: u32,
    y: u32,
    value: u16,
)
    ensures
        final(buffer)@ == with_pixel(old(buffer)@, rotation, x as int, y as int, value),
{
    let (width, height) = rotation.dimensions();
    if x >= width as u32 || y >= height as u32 {
        return ;
    }
    proof {
        lemma_pixel_offset_in_buffer(rotation, x as int, y as int);
    }
    let row: usize = match rotation {
        DisplayRotation::Rotate0 | DisplayRotation::Rotate180 => DISPLAY_WIDTH as usize,
        DisplayRotation::Rotate90 | DisplayRotation::Rotate270 => DISPLAY_HEIGHT as usize,
    };
    assert((y as usize) * row <= 95 * 96) by (nonlinear_arith)
        requires
            y <= 95,
            row <= 96,
    ;
    let idx: usize = ((y as usize) * row + (x as usize)) * 2;

    // Split 16 bit value into two bytes
    assert(value & 0xff == value % 256) by (bit_vector);
    assert((value & 0xff00) >> 8 == value / 256) by (bit_vector);
    let low = (value & 0xff) as u8;
    let high = ((value & 0xff00) >> 8) as u8;

    buffer[idx] = high;
    buffer[idx + 1] = low;
}

/// Clear the buffer: every pixel becomes black.
pub fn clear(buffer: &mut [u8; BUF_SIZE])
    ensures
        final(buffer)@ == blank(),
{
    *buffer = [0;BUF_SIZE];
    assert(buffer@ =~= blank());
}

/// Setting a pixel of the picture puts the colour's high byte at the pixel's offset and its
/// low byte behind it, and leaves every other byte of the buffer as it was. The two bytes
/// together are the colour.
pub proof fn lemma_pixel_stored(
    buffer: Seq<u8>,
    rotation: DisplayRotation,
    x: int,
    y: int,
    value: u16,
)
    requires
        buffer.len() == BUF_SIZE,
        pixel_in_bounds(rotation, x, y),
    ensures
        with_pixel(buffer, rotation, x, y, value).len() == BUF_SIZE,
        with_pixel(buffer, rotation, x, y, value)[pixel_offset(rotation, x, y)] == high_byte(
            value,
        ),
        with_pixel(buffer, rotation, x, y, value)[pixel_offset(rotation, x, y) + 1] == low_byte(
            value,
        ),
        forall|i: int|
            0 <= i < BUF_SIZE && i != pixel_offset(rotation, x, y) && i != pixel_offset(
                rotation,
                x,
                y,
            ) + 1 ==> with_pixel(buffer, rotation, x, y, value)[i] == buffer[i],
        256 * high_byte(value) + low_byte(value) == value,
{
    lemma_pixel_offset_in_buffer(rotation, x, y);
}

/// One pixel to draw: a position, which may lie outside the picture, and a colour in
/// RGB565.
#[derive(Clone, Copy, Debug, PartialEq, Eq)]
pub struct Pixel {
    /// Column, counted from the left edge of the picture.
    pub x: i32,
    /// Row, counted from the top edge of the picture.
    pub y: i32,
    /// The colour, RGB565.
    pub color: u16,
}

/// The buffer after the pixels were set one after the other. Where two of them name the
/// same position the later one wins; those outside the picture change nothing.
pub open spec fn with_pixels(
    buffer: Seq<u8>,
    rotation: DisplayRotation,
    pixels: Seq<(int, int, u16)>,
) -> Seq<u8>
    decreases pixels.len(),
{
    if pixels.len() == 0 {
        buffer
    } else {
        let p = pixels.last();
        with_pixel(with_pixels(buffer, rotation, pixels.drop_last()), rotation, p.0, p.1, p.2)
    }
}

/// Pixel events as positions and colours.
pub open spec fn points(pixels: Seq<Pixel>) -> Seq<(int, int, u16)> {
    pixels.map_values(|p: Pixel| (p.x as int, p.y as int, p.color))
}

/// Pixels at positions counted from zero as positions and colours.
pub open spec fn unsigned_points(pixels: Seq<(u32, u32, u16)>) -> Seq<(int, int, u16)> {
    pixels.map_values(|p: (u32, u32, u16)| (p.0 as int, p.1 as int, p.2))
}

/// Whether the rectangle of the given size with its top left corner at the origin contains
/// the point (x, y).
///
/// Calls `Rectangle::contains` of `embedded_graphics_core` on
/// `Rectangle::new(Point::zero(), Size::new(width, height))`. That function accepts a point
/// that lies neither left of nor above the top left corner, nor right of or below the
/// bottom right corner, which for this rectangle is (width - 1, height - 1); a rectangle
/// without width or height has no such corner and contains nothing. The sizes are kept
/// within `i32` because the corner is computed in `i32`.
#[verifier::external_body]
fn bounding_box_contains(width: u32, height: u32, x: i32, y: i32) -> (inside: bool)
    requires
        width <= i32::MAX,
        height <= i32::MAX,
    ensures
        inside == (0 <= x < width && 0 <= y < height),
{
    Rectangle::new(Point::zero(), Size::new(width, height)).contains(Point::new(x, y))
}

/// Set every pixel that lies inside the picture, in the order given, and skip the others.
pub fn draw_pixels(buffer: &mut [u8; BUF_SIZE], rotation: DisplayRotation, pixels: &[Pixel])
    ensures
        final(buffer)@ == with_pixels(old(buffer)@, rotation, points(pixels@)),
{
    let (width, height) = rotation.dimensions();
    let ghost all = points(pixels@);
    let mut i: usize = 0;
    assert(all.take(0) =~= Seq::<(int, int, u16)>::empty());
    while i < pixels.len()
        invariant
            0 <= i <= pixels.len(),
            all == points(pixels@),
            (width, height) == rotation.spec_dimensions(),
            buffer@ == with_pixels(old(buffer)@, rotation, all.take(i as int)),
        decreases pixels.len() - i,
    {
        let pixel = pixels[i];
        proof {
            assert(all.take(i as int + 1).drop_last() =~= all.take(i as int));
            assert(all.take(i as int + 1).last() == (
                pixel.x as int,
                pixel.y as int,
                pixel.color,
            ));
        }
        if bounding_box_contains(width as u32, height as u32, pixel.x, pixel.y) {
            set_pixel(buffer, rotation, pixel.x as u32, pixel.y as u32, pixel.color);
        }
        i += 1;
    }
    assert(all.take(i as int) =~= all);
}

/// Set the pixels in the order given. Those outside the picture are skipped.
pub fn draw_unsigned(
    buffer: &mut [u8; BUF_SIZE],
    rotation: DisplayRotation,
    pixels: &[(u32, u32, u16)],
)
    ensures
        final(buffer)@ == with_pixels(old(buffer)@, rotation, unsigned_points(pixels@)),
{
    let ghost all = unsigned_points(pixels@);
    let mut i: usize = 0;
    assert(all.take(0) =~= Seq::<(int, int, u16)>::empty());
    while i < pixels.len()
        invariant
            0 <= i <= pixels.len(),
            all == unsigned_points(pixels@),
            buffer@ == with_pixels(old(buffer)@, rotation, all.take(i as int)),
        decreases pixels.len() - i,
    {
        let pixel = pixels[i];
        proof {
            assert(all.take(i as int + 1).drop_last() =~= all.take(i as int));
            assert(all.take(i as int + 1).last() == (pixel.0 as int, pixel.1 as int, pixel.2));
        }
        set_pixel(buffer, rotation, pixel.0, pixel.1, pixel.2);
        i += 1;
    }
    assert(all.take(i as int) =~= all);
}

} // verus!
