//! White points: the reference illuminant that defines what counts as white
//! for a colour space. A white point is a zero-sized marker that resolves to
//! a fixed tristimulus triple.

use vstd::prelude::*;

verus! {

/// A tristimulus XYZ triple, each coordinate in millionths: the coordinate
/// worth `1_000_000` stands for the value one.
#[derive(Clone, Copy, PartialEq, Eq, Structural, Debug)]
pub struct Xyz {
    /// The X coordinate, in millionths.
    pub x: i64,
    /// The Y coordinate, in millionths.
    pub y: i64,
    /// The Z coordinate, in millionths.
    pub z: i64,
}

/// A standard illuminant. Each implementor is a stateless marker naming one
/// reference white, pinned by `spec_xyz` to its published tristimulus triple.
pub trait WhitePoint {
    /// The reference white's tristimulus triple.
    spec fn spec_xyz() -> Xyz;

    /// The reference white's tristimulus triple.
    fn get_xyz() -> (r: Xyz)
        ensures
            r == Self::spec_xyz(),
    ;
}

/// The CIE D65 (daylight) illuminant, the reference white of sRGB.
#[derive(Clone, Copy, PartialEq, Eq, Structural, Debug)]
pub struct D65;

impl WhitePoint for D65 {
    open spec fn spec_xyz() -> Xyz {
        Xyz { x: 950470, y: 1000000, z: 1088830 }
    }

    fn get_xyz() -> (r: Xyz) {
        Xyz { x: 950470, y: 1000000, z: 1088830 }
    }
}

} // verus!
