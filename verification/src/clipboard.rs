//! What is put on the clipboard: a picked colour, or an image as RGBA bytes, and
//! the plain-text PPM form of an image.
use vstd::prelude::*;
use crate::color::Color32;
use crate::image_processing::{opaque_rgba, rgba_bytes, u8u8u8_to_u8u8u8u8, u8u8u8u8_to_u8, FramePixelRead, Rgb};
use crate::text::{decimal, push_char, push_decimal};

verus! {

/// The line `r g b` of a pixel in a plain-text PPM image.
pub open spec fn ppm_pixel_line(color: (u8, u8, u8)) -> Seq<char> {
    decimal(color.0 as nat) + seq![' '] + decimal(color.1 as nat) + seq![' '] + decimal(
        color.2 as nat,
    ) + seq!['\n']
}

/// The pixel lines of a plain-text PPM image, one per pixel.
pub open spec fn ppm_pixel_lines(px: Seq<Rgb>) -> Seq<char>
    decreases px.len(),
{
    if px.len() == 0 {
        Seq::empty()
    } else {
        ppm_pixel_lines(px.drop_last()) + ppm_pixel_line(px.last().val)
    }
}

/// The header `P3\n<width> <height>\n255\n` of a plain-text PPM image.
pub open spec fn ppm_header(width: nat, height: nat) -> Seq<char> {
    seq!['P', '3', '\n'] + decimal(width) + seq![' '] + decimal(height) + seq![
        '\n',
        '2',
        '5',
        '5',
        '\n',
    ]
}

/// Appends the line of one pixel to a plain-text PPM image.
pub fn write_color_ppm(ppm_string: &mut String, color: (u8, u8, u8))
    ensures
        final(ppm_string)@ == old(ppm_string)@ + ppm_pixel_line(color),
{
    let ghost start = ppm_string@;
    push_decimal(ppm_string, color.0 as u64);
    push_char(ppm_string, ' ');
    push_decimal(ppm_string, color.1 as u64);
    push_char(ppm_string, ' ');
    push_decimal(ppm_string, color.2 as u64);
    push_char(ppm_string, '\n');
    assert(ppm_string@ =~= start + ppm_pixel_line(color));
}

/// The text of a plain-text PPM image: its header, then a line per pixel.
pub fn ppm_image_text(width: usize, height: usize, pixels: &[Rgb]) -> (res: String)
    ensures
        res@ == ppm_header(width as nat, height as nat) + ppm_pixel_lines(pixels@),
{
    let mut s = String::new();
    push_char(&mut s, 'P');
    push_char(&mut s, '3');
    push_char(&mut s, '\n');
    push_decimal(&mut s, width as u64);
    push_char(&mut s, ' ');
    push_decimal(&mut s, height as u64);
    push_char(&mut s, '\n');
    push_char(&mut s, '2');
    push_char(&mut s, '5');
    push_char(&mut s, '5');
    push_char(&mut s, '\n');
    let ghost header = s@;
    assert(header =~= ppm_header(width as nat, height as nat));
    let mut i: usize = 0;
    while i < pixels.len()
        invariant
            i <= pixels@.len(),
            s@ == header + ppm_pixel_lines(pixels@.take(i as int)),
        decreases pixels@.len() - i,
    {
        write_color_ppm(&mut s, pixels[i].val);
        assert(pixels@.take(i + 1).drop_last() =~= pixels@.take(i as int));
        i = i + 1;
        assert(s@ =~= header + ppm_pixel_lines(pixels@.take(i as int)));
    }
    assert(pixels@.take(i as int) =~= pixels@);
    s
}

/// What a clipboard copy of a screen region does.
#[derive(Debug)]
pub enum ClipboardCopyAction {
    /// Copy a single picked colour as text.
    CopyColor(Color32),
    /// Copy an image of `width` by `height` pixels, four bytes (RGBA) per pixel.
    CopyImage { width: usize, height: usize, bytes: Vec<u8> },
    /// Nothing to copy.
    Nothing,
}

/// Decides what to copy from the pixels read from the screen: one pixel is copied as a
/// colour, several as an opaque RGBA image, none as nothing.
pub fn clipboard_copy_action(frame_pixels: Option<FramePixelRead>) -> (res: ClipboardCopyAction)
    ensures
        match frame_pixels {
            None => res is Nothing,
            Some(fp) => if fp.data@.len() == 1 {
                res == ClipboardCopyAction::CopyColor(
                    Color32 { r: fp.data@[0].val.0, g: fp.data@[0].val.1, b: fp.data@[0].val.2, a: 255 },
                )
            } else if fp.data@.len() > 1 {
                res matches ClipboardCopyAction::CopyImage { width, height, bytes } && width
                    == fp.width && height == fp.height && bytes@ == rgba_bytes(
                    opaque_rgba(fp.data@),
                )
            } else {
                res is Nothing
            },
        },
{
    match frame_pixels {
        Some(fp) => {
            if fp.data.len() == 1 {
                let p = &fp.data[0];
                ClipboardCopyAction::CopyColor(Color32::from_rgb(p.val.0, p.val.1, p.val.2))
            } else if fp.data.len() > 1 {
                let padded = u8u8u8_to_u8u8u8u8(fp.data.as_slice());
                let bytes = u8u8u8u8_to_u8(padded.as_slice());
                ClipboardCopyAction::CopyImage { width: fp.width, height: fp.height, bytes }
            } else {
                ClipboardCopyAction::Nothing
            }
        },
        None => ClipboardCopyAction::Nothing,
    }
}

} // verus!
