//! The Yxy form of a tristimulus value: luminance plus the two chromaticity
//! coordinates. The primaries of an RGB space resolve to triples of this
//! form.

use vstd::prelude::*;

verus! {

/// A Yxy triple, each coordinate stored in millionths: `x` and `y` are the
/// chromaticity coordinates and `luma` is the luminance, so the field worth
/// `1_000_000` stands for the value one.
#[derive(Clone, Copy, PartialEq, Eq, Structural, Debug)]
pub struct Yxy {
    /// The x chromaticity coordinate, in millionths.
    pub x: i64,
    /// The y chromaticity coordinate, in millionths.
    pub y: i64,
    /// The luminance, in millionths.
    pub luma: i64,
}

impl Yxy {
    /// The triple with the given coordinates, in millionths.
    pub fn new(x: i64, y: i64, luma: i64) -> (r: Yxy)
        ensures
            r == (Yxy { x, y, luma }),
    {
        Yxy { x, y, luma }
    }
}

} // verus!
