//! The screen region to read pixels from, in native pixels with the origin at the
//! bottom left, its sides rounded up to multiples of 4.
use vstd::prelude::*;
use crate::image_processing::{rgb_pixels, u8_to_u8u8u8, FramePixelRead, Rgb};

verus! {

/// `a` rounded down to a multiple of 4.
pub open spec fn round_down4(a: i32) -> i32 {
    a & -4i32
}

pub proof fn lemma_round_down4(a: i32)
    ensures
        round_down4(a) <= a,
        a - round_down4(a) <= 3,
        round_down4(a) & 3i32 == 0,
{
    assert(a & -4i32 <= a) by (bit_vector);
    assert(a - (a & -4i32) <= 3) by (bit_vector);
    assert((a & -4i32) & 3i32 == 0) by (bit_vector);
}

/// A rectangle of the frame to read, in native pixels, origin at the bottom left.
#[derive(Debug, PartialEq, Eq, Structural, Clone, Copy)]
pub struct PixelReadRegion {
    pub x: i32,
    pub y: i32,
    pub width: i32,
    pub height: i32,
}

/// `a + 3` rounded down to a multiple of 4: `a` rounded up, for `a` above -3.
pub open spec fn round_up4(a: i32) -> int {
    round_down4((a + 3) as i32) as int
}

/// The bottom edge, in the frame's coordinates, of a rectangle whose top edge is `y_egui`
/// rows below the top of a screen `screen_height_px` rows high.
pub open spec fn flipped_bottom(y_egui: i32, height: i32, screen_height_px: i32) -> int {
    screen_height_px - y_egui - round_up4(height)
}

/// The computation of the region overflows no 32-bit integer on the way.
pub open spec fn region_fits(
    x: i32,
    y_egui: i32,
    width: i32,
    height: i32,
    screen_width_px: i32,
    screen_height_px: i32,
) -> bool {
    let w4 = round_up4(width);
    let h4 = round_up4(height);
    let y = flipped_bottom(y_egui, height, screen_height_px);
    &&& width + 3 <= i32::MAX
    &&& height + 3 <= i32::MAX
    &&& i32::MIN <= screen_height_px - y_egui <= i32::MAX
    &&& i32::MIN <= y <= i32::MAX
    &&& (w4 > 0 && h4 > 0 && x >= 0 && y >= 0) ==> x + w4 <= i32::MAX
    &&& (w4 > 0 && h4 > 0 && x >= 0 && y >= 0 && x + w4 <= screen_width_px) ==> y + h4
        <= i32::MAX
}

/// The region to read for a rectangle at `x`, `y_egui` (from the top) of `width` by
/// `height` native pixels: its sides rounded up to multiples of 4 and its origin moved to
/// the bottom left; nothing when it is empty or not wholly on a screen of
/// `screen_width_px` by `screen_height_px`.
pub fn gl_read_region(
    x: i32,
    y_egui: i32,
    width: i32,
    height: i32,
    screen_width_px: i32,
    screen_height_px: i32,
) -> (res: Option<PixelReadRegion>)
    requires
        region_fits(x, y_egui, width, height, screen_width_px, screen_height_px),
    ensures
        ({
            let w4 = round_up4(width);
            let h4 = round_up4(height);
            let y = flipped_bottom(y_egui, height, screen_height_px);
            if w4 > 0 && h4 > 0 && x >= 0 && y >= 0 && x + w4 <= screen_width_px && y + h4
                <= screen_height_px {
                res == Some(PixelReadRegion { x, y: y as i32, width: w4 as i32, height: h4 as i32 })
            } else {
                res is None
            }
        }),
        res matches Some(r) ==> r.width & 3i32 == 0 && width <= r.width <= width + 3,
        res matches Some(r) ==> r.height & 3i32 == 0 && height <= r.height <= height + 3,
        res matches Some(r) ==> {
            &&& r.x == x
            &&& r.y == screen_height_px - y_egui - r.height
            &&& 0 <= r.x && r.x + r.width <= screen_width_px
            &&& 0 <= r.y && r.y + r.height <= screen_height_px
        },
{
    proof {
        lemma_round_down4((width + 3) as i32);
        lemma_round_down4((height + 3) as i32);
    }
    let width_4 = (width + 3) & (-4i32);
    let height_4 = (height + 3) & (-4i32);
    let y = screen_height_px - y_egui - height_4;
    if width_4 <= 0 || height_4 <= 0 || x < 0 || y < 0 || x + width_4 > screen_width_px || y
        + height_4 > screen_height_px {
        return None;
    }
    Some(PixelReadRegion { x, y, width: width_4, height: height_4 })
}

/// The pixels of a read of `width` by `height` pixels from the bytes read: all of them, or
/// only the first for a single-pixel read.
pub fn frame_pixels_from_read(buf: &[u8], width: i32, height: i32) -> (res: FramePixelRead)
    requires
        buf@.len() % 3 == 0,
        width >= 1,
        height >= 1,
        width == 1 && height == 1 ==> buf@.len() >= 3,
    ensures
        res.width == width as usize,
        res.height == height as usize,
        if width == 1 && height == 1 {
            res.data@ == seq![rgb_pixels(buf@)[0]]
        } else {
            res.data@ == rgb_pixels(buf@)
        },
{
    let mut pixels = u8_to_u8u8u8(buf);
    if width == 1 && height == 1 {
        let first = pixels[0].clone();
        pixels = Vec::new();
        pixels.push(first);
        assert(pixels@ =~= seq![rgb_pixels(buf@)[0]]);
    }
    FramePixelRead { data: pixels, width: width as usize, height: height as usize }
}

} // verus!
