//! Settings shared across the picker: how a colour is copied as text and how
//! control points are joined into a curve.
use vstd::prelude::*;

verus! {

/// The text format a colour is copied to the clipboard in.
#[derive(Debug, PartialEq, Eq, Structural, Copy, Clone)]
pub enum ColorStringCopy {
    HEX,
    HEXNOA,
    SRGBHEX,
    HSV,
    HSVA,
    INT,
    FLOAT,
    RGB,
    SRGB,
    RGBA,
    SRGBA,
}

impl Default for ColorStringCopy {
    fn default() -> (res: Self)
        ensures
            res == ColorStringCopy::HEXNOA,
    {
        ColorStringCopy::HEXNOA
    }
}

/// How the control points are interpolated into a curve.
#[derive(Debug, PartialEq, Eq, Structural, Copy, Clone)]
pub enum SplineMode {
    Linear,
    Bezier,
    HermiteBezier,
    Polynomial,
}

impl Default for SplineMode {
    fn default() -> (res: Self)
        ensures
            res == SplineMode::HermiteBezier,
    {
        SplineMode::HermiteBezier
    }
}

} // verus!
