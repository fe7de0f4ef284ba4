//! Transfer functions and the named standards built from them.
//!
//! A transfer function pairs an encode step (linear light to its display
//! representation) with the decode step back. Three are provided: the sRGB
//! piecewise curve, the identity for linear storage, and a pure power law.
//! The raw floating arithmetic they are built from comes through
//! [`FloatComponent`], whose implementors live outside the verified core;
//! what is proved here holds whatever those operations return.

use vstd::prelude::*;
use core::marker::PhantomData;
use crate::component::FloatComponent;
use crate::rgb::{Primaries, RgbSpace, RgbStandard};
use crate::white_point::D65;
use crate::yxy::Yxy;

verus! {

/// A pure numeric mapping pair on components of kind `C`: `from_linear`
/// encodes linear light and `into_linear` decodes back, both total over the
/// component's range and beyond it — out-of-range input is mapped, never
/// rejected or clamped. The two spec functions name each mapping's result,
/// and each implementor's spec body states its formula, so callers can pin
/// their own results to "the standard's transfer function, applied to this
/// component".
pub trait TransferFn<C> {
    /// Encode: linear light to its non-linear representation.
    spec fn spec_from_linear(x: C) -> C;

    /// Decode: the non-linear representation back to linear light.
    spec fn spec_into_linear(x: C) -> C;

    /// Encode: linear light to its non-linear representation.
    fn from_linear(x: C) -> (r: C)
        ensures
            r == Self::spec_from_linear(x),
    ;

    /// Decode: the non-linear representation back to linear light.
    fn into_linear(x: C) -> (r: C)
        ensures
            r == Self::spec_into_linear(x),
    ;
}

/// The identity transfer function: components are stored as linear light.
#[derive(Clone, Copy, PartialEq, Eq, Structural, Debug)]
pub struct LinearFn;

impl<C> TransferFn<C> for LinearFn {
    open spec fn spec_from_linear(x: C) -> C {
        x
    }

    open spec fn spec_into_linear(x: C) -> C {
        x
    }

    fn from_linear(x: C) -> (r: C) {
        x
    }

    fn into_linear(x: C) -> (r: C) {
        x
    }
}

/// The non-linear sRGB standard: the sRGB primaries under D65, encoded with
/// the sRGB piecewise curve. The marker also names the curve itself and the
/// primaries on their own, so it can stand wherever one of those is wanted.
#[derive(Clone, Copy, PartialEq, Eq, Structural, Debug)]
pub struct Srgb;

impl<C: FloatComponent> TransferFn<C> for Srgb {
    /// The published sRGB curve: a linear segment with slope 12.92 below
    /// 0.0031308, and the offset power law `1.055 * x^(1/2.4) - 0.055`
    /// above it.
    open spec fn spec_from_linear(x: C) -> C {
        if x.spec_le(C::spec_of_ratio(31308, 10000000)) {
            x.spec_times(C::spec_of_ratio(1292, 100))
        } else {
            C::spec_of_ratio(1055, 1000).spec_times(
                x.spec_powf(C::spec_of_ratio(10, 24)),
            ).spec_minus(C::spec_of_ratio(55, 1000))
        }
    }

    /// The inverse curve: division by 12.92 below 0.04045, and
    /// `((x + 0.055) / 1.055)^2.4` above it.
    open spec fn spec_into_linear(x: C) -> C {
        if x.spec_le(C::spec_of_ratio(4045, 100000)) {
            x.spec_div_by(C::spec_of_ratio(1292, 100))
        } else {
            x.spec_plus(C::spec_of_ratio(55, 1000)).spec_div_by(
                C::spec_of_ratio(1055, 1000),
            ).spec_powf(C::spec_of_ratio(24, 10))
        }
    }

    fn from_linear(x: C) -> (r: C) {
        if x.is_le(&C::of_ratio(31308, 10000000)) {
            x.times(C::of_ratio(1292, 100))
        } else {
            C::of_ratio(1055, 1000).times(x.powf(C::of_ratio(10, 24))).minus(
                C::of_ratio(55, 1000),
            )
        }
    }

    fn into_linear(x: C) -> (r: C) {
        if x.is_le(&C::of_ratio(4045, 100000)) {
            x.div_by(C::of_ratio(1292, 100))
        } else {
            x.plus(C::of_ratio(55, 1000)).div_by(C::of_ratio(1055, 1000)).powf(
                C::of_ratio(24, 10),
            )
        }
    }
}

impl Primaries for Srgb {
    open spec fn spec_red() -> Yxy {
        Yxy { x: 640000, y: 330000, luma: 212656 }
    }

    open spec fn spec_green() -> Yxy {
        Yxy { x: 300000, y: 600000, luma: 715158 }
    }

    open spec fn spec_blue() -> Yxy {
        Yxy { x: 150000, y: 60000, luma: 72186 }
    }

    fn red() -> (r: Yxy) {
        Yxy { x: 640000, y: 330000, luma: 212656 }
    }

    fn green() -> (r: Yxy) {
        Yxy { x: 300000, y: 600000, luma: 715158 }
    }

    fn blue() -> (r: Yxy) {
        Yxy { x: 150000, y: 60000, luma: 72186 }
    }
}

impl RgbSpace for Srgb {
    type Primaries = Srgb;

    type WhitePoint = D65;
}

impl RgbStandard for Srgb {
    type Space = Srgb;

    type TransferFn = Srgb;
}

/// Linear storage over the space `S`: the same gamut and white point, with
/// the identity transfer function.
pub struct Linear<S> {
    space: PhantomData<S>,
}

impl<S: RgbSpace> RgbStandard for Linear<S> {
    type Space = S;

    type TransferFn = LinearFn;
}

/// The exponent of a power-law transfer function, written as the ratio
/// `num / den`. Each implementor is a zero-sized marker naming one exponent.
pub trait GammaExponent {
    /// The numerator of the exponent.
    spec fn spec_num() -> u32;

    /// The denominator of the exponent.
    spec fn spec_den() -> u32;

    /// The numerator of the exponent.
    fn num() -> (r: u32)
        ensures
            r == Self::spec_num(),
    ;

    /// The denominator of the exponent.
    fn den() -> (r: u32)
        ensures
            r == Self::spec_den(),
    ;
}

/// The exponent 2.2, the conventional display gamma.
#[derive(Clone, Copy, PartialEq, Eq, Structural, Debug)]
pub struct F2p2;

impl GammaExponent for F2p2 {
    open spec fn spec_num() -> u32 {
        22
    }

    open spec fn spec_den() -> u32 {
        10
    }

    fn num() -> (r: u32) {
        22
    }

    fn den() -> (r: u32) {
        10
    }
}

/// The pure power-law transfer function with exponent `N`: encoding raises
/// to one over the exponent and decoding raises to the exponent itself.
pub struct GammaFn<N = F2p2> {
    exponent: PhantomData<N>,
}

impl<C: FloatComponent, N: GammaExponent> TransferFn<C> for GammaFn<N> {
    open spec fn spec_from_linear(x: C) -> C {
        x.spec_powf(C::spec_of_ratio(N::spec_den(), N::spec_num()))
    }

    open spec fn spec_into_linear(x: C) -> C {
        x.spec_powf(C::spec_of_ratio(N::spec_num(), N::spec_den()))
    }

    fn from_linear(x: C) -> (r: C) {
        x.powf(C::of_ratio(N::den(), N::num()))
    }

    fn into_linear(x: C) -> (r: C) {
        x.powf(C::of_ratio(N::num(), N::den()))
    }
}

/// Gamma-encoded storage over the space `S`: the same gamut and white
/// point, with the pure power law of exponent `N` as transfer function.
pub struct Gamma<S, N = F2p2> {
    space: PhantomData<S>,
    exponent: PhantomData<N>,
}

impl<S: RgbSpace, N: GammaExponent> RgbStandard for Gamma<S, N> {
    type Space = S;

    type TransferFn = GammaFn<N>;
}

} // verus!
