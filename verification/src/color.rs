//! An 8-bit colour and its text forms for the clipboard.
use vstd::prelude::*;
use crate::common::ColorStringCopy;
use crate::text::{decimal, hex_byte, push_char, push_decimal, push_hex_byte};

verus! {

/// A colour with 8-bit red, green, blue and alpha channels.
#[derive(Debug, PartialEq, Eq, Structural, Copy, Clone)]
pub struct Color32 {
    pub r: u8,
    pub g: u8,
    pub b: u8,
    pub a: u8,
}

impl Color32 {
    /// An opaque colour.
    pub fn from_rgb(r: u8, g: u8, b: u8) -> (res: Self)
        ensures
            res == (Color32 { r, g, b, a: 255 }),
    {
        Color32 { r, g, b, a: 255 }
    }

    pub fn from_rgba(r: u8, g: u8, b: u8, a: u8) -> (res: Self)
        ensures
            res == (Color32 { r, g, b, a }),
    {
        Color32 { r, g, b, a }
    }

    pub fn r(&self) -> (res: u8)
        ensures
            res == self.r,
    {
        self.r
    }

    pub fn g(&self) -> (res: u8)
        ensures
            res == self.g,
    {
        self.g
    }

    pub fn b(&self) -> (res: u8)
        ensures
            res == self.b,
    {
        self.b
    }

    pub fn a(&self) -> (res: u8)
        ensures
            res == self.a,
    {
        self.a
    }
}

/// `RRGGBB` in upper-case hexadecimal.
pub open spec fn hex_rgb(c: Color32) -> Seq<char> {
    hex_byte(c.r) + hex_byte(c.g) + hex_byte(c.b)
}

/// `AARRGGBB` in upper-case hexadecimal.
pub open spec fn hex_argb(c: Color32) -> Seq<char> {
    hex_byte(c.a) + hex_byte(c.r) + hex_byte(c.g) + hex_byte(c.b)
}

/// `RGB(r, g, b)` with decimal channels.
pub open spec fn rgb_call(c: Color32) -> Seq<char> {
    seq!['R', 'G', 'B', '('] + decimal(c.r as nat) + seq![',', ' '] + decimal(c.g as nat) + seq![
        ',',
        ' ',
    ] + decimal(c.b as nat) + seq![')']
}

/// The text a colour is copied as, in the given format.
pub open spec fn color_text(c: Color32, format_type: ColorStringCopy, no_alpha: Option<bool>) -> Seq<
    char,
> {
    match format_type {
        ColorStringCopy::HEX => if no_alpha == Some(true) {
            hex_rgb(c)
        } else {
            hex_argb(c)
        },
        ColorStringCopy::HEXNOA => hex_rgb(c),
        _ => rgb_call(c),
    }
}

/// Formats a colour as text: hexadecimal with or without alpha, or `RGB(r, g, b)` for
/// the formats that have no text form of their own; always upper-case.
pub fn format_color_as(color: Color32, format_type: ColorStringCopy, no_alpha: Option<bool>) -> (res:
    String)
    ensures
        res@ == color_text(color, format_type, no_alpha),
{
    let mut s = String::new();
    match format_type {
        ColorStringCopy::HEX => {
            let with_alpha = match no_alpha {
                Some(no_alpha) => !no_alpha,
                None => true,
            };
            if with_alpha {
                push_hex_byte(&mut s, color.a);
            }
            push_hex_byte(&mut s, color.r);
            push_hex_byte(&mut s, color.g);
            push_hex_byte(&mut s, color.b);
            assert(s@ =~= color_text(color, format_type, no_alpha));
        },
        ColorStringCopy::HEXNOA => {
            push_hex_byte(&mut s, color.r);
            push_hex_byte(&mut s, color.g);
            push_hex_byte(&mut s, color.b);
            assert(s@ =~= color_text(color, format_type, no_alpha));
        },
        _ => {
            push_char(&mut s, 'R');
            push_char(&mut s, 'G');
            push_char(&mut s, 'B');
            push_char(&mut s, '(');
            push_decimal(&mut s, color.r as u64);
            push_char(&mut s, ',');
            push_char(&mut s, ' ');
            push_decimal(&mut s, color.g as u64);
            push_char(&mut s, ',');
            push_char(&mut s, ' ');
            push_decimal(&mut s, color.b as u64);
            push_char(&mut s, ')');
            assert(s@ =~= color_text(color, format_type, no_alpha));
        },
    }
    s
}

/// Hexadecimal without alpha is the same text whichever of the two formats asks for it,
/// and with alpha it is that text after the alpha byte.
pub proof fn lemma_hex_forms(c: Color32, no_alpha: Option<bool>)
    ensures
        color_text(c, ColorStringCopy::HEX, Some(true)) == color_text(
            c,
            ColorStringCopy::HEXNOA,
            no_alpha,
        ),
        color_text(c, ColorStringCopy::HEX, None) == hex_byte(c.a) + color_text(
            c,
            ColorStringCopy::HEXNOA,
            no_alpha,
        ),
        color_text(c, ColorStringCopy::HEX, None).len() == 8,
        color_text(c, ColorStringCopy::HEXNOA, no_alpha).len() == 6,
{
    assert(hex_argb(c) =~= hex_byte(c.a) + hex_rgb(c));
}

} // verus!
