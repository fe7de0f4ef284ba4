//! RGB spaces, standards and the colour containers.
//!
//! A *space* is a set of primaries together with a white point: it fixes the
//! gamut and the reference white, but not how component numbers are encoded.
//! A *standard* is a space together with a transfer function: everything
//! needed to interpret raw component numbers as a real colour. Both are
//! composed generically: any (primaries, white point) pair is a space, and
//! any (space, transfer function) pair — or (primaries, white point,
//! transfer function) triple — is a standard, with no per-standard code.

use vstd::prelude::*;
use core::marker::PhantomData;
use crate::component::{scale_round, Component, FromComponent};
use crate::encoding::{Linear, TransferFn};
use crate::white_point::{WhitePoint, D65};
use crate::yxy::Yxy;

verus! {

/// The red, green and blue primaries of an RGB space. Each implementor is a
/// stateless marker whose three chromaticities are pinned by the spec
/// functions to published triples.
pub trait Primaries {
    /// The red primary's triple.
    spec fn spec_red() -> Yxy;

    /// The green primary's triple.
    spec fn spec_green() -> Yxy;

    /// The blue primary's triple.
    spec fn spec_blue() -> Yxy;

    /// Primary red.
    fn red() -> (r: Yxy)
        ensures
            r == Self::spec_red(),
    ;

    /// Primary green.
    fn green() -> (r: Yxy)
        ensures
            r == Self::spec_green(),
    ;

    /// Primary blue.
    fn blue() -> (r: Yxy)
        ensures
            r == Self::spec_blue(),
    ;
}

/// A set of primaries and a white point.
pub trait RgbSpace {
    /// The primaries of the RGB colour space.
    type Primaries: Primaries;

    /// The white point of the RGB colour space.
    type WhitePoint: WhitePoint;
}

/// An RGB space and a transfer function.
pub trait RgbStandard {
    /// The RGB colour space.
    type Space: RgbSpace;

    /// The transfer function for the colour components.
    type TransferFn;
}

impl<P: Primaries, W: WhitePoint> RgbSpace for (P, W) {
    type Primaries = P;

    type WhitePoint = W;
}

impl<S: RgbSpace, T> RgbStandard for (S, T) {
    type Space = S;

    type TransferFn = T;
}

impl<P: Primaries, W: WhitePoint, T> RgbStandard for (P, W, T) {
    type Space = (P, W);

    type TransferFn = T;
}

/// An RGB colour value: three components tagged, in the type, with the
/// standard that gives them meaning. The tag is fixed for the value's
/// lifetime; every conversion returns a new value under a new tag.
#[verifier::reject_recursive_types(S)]
#[derive(PartialEq, Eq, Debug)]
pub struct Rgb<S: RgbStandard, C> {
    /// The red component.
    pub red: C,
    /// The green component.
    pub green: C,
    /// The blue component.
    pub blue: C,
    /// The standard the components are expressed in.
    pub standard: PhantomData<S>,
}

/// An RGB colour value with an alpha (opacity) component. Alpha is always a
/// plain linear fraction of full opacity: the standard's transfer function
/// applies to the colour components only, never to alpha.
#[verifier::reject_recursive_types(S)]
#[derive(PartialEq, Eq, Debug)]
pub struct Rgba<S: RgbStandard, C> {
    /// The colour components.
    pub color: Rgb<S, C>,
    /// The alpha component.
    pub alpha: C,
}

impl<S: RgbStandard, C> Rgb<S, C> {
    /// The colour with the given components.
    pub fn new(red: C, green: C, blue: C) -> (r: Self)
        ensures
            r.red == red,
            r.green == green,
            r.blue == blue,
    {
        Rgb { red, green, blue, standard: PhantomData }
    }

    /// The components as a (red, green, blue) tuple.
    pub fn into_components(self) -> (r: (C, C, C))
        ensures
            r == (self.red, self.green, self.blue),
    {
        (self.red, self.green, self.blue)
    }

    /// The colour with the tuple's components.
    pub fn from_components(components: (C, C, C)) -> (r: Self)
        ensures
            r.red == components.0,
            r.green == components.1,
            r.blue == components.2,
    {
        let (red, green, blue) = components;
        Rgb::new(red, green, blue)
    }
}

impl<S: RgbStandard, C> Rgba<S, C> {
    /// The colour with the given components and alpha.
    pub fn new(red: C, green: C, blue: C, alpha: C) -> (r: Self)
        ensures
            r.color.red == red,
            r.color.green == green,
            r.color.blue == blue,
            r.alpha == alpha,
    {
        Rgba { color: Rgb::new(red, green, blue), alpha }
    }

    /// The components as a (red, green, blue, alpha) tuple.
    pub fn into_components(self) -> (r: (C, C, C, C))
        ensures
            r == (self.color.red, self.color.green, self.color.blue, self.alpha),
    {
        (self.color.red, self.color.green, self.color.blue, self.alpha)
    }

    /// The colour with the tuple's components.
    pub fn from_components(components: (C, C, C, C)) -> (r: Self)
        ensures
            r.color.red == components.0,
            r.color.green == components.1,
            r.color.blue == components.2,
            r.alpha == components.3,
    {
        let (red, green, blue, alpha) = components;
        Rgba::new(red, green, blue, alpha)
    }
}

impl<S: RgbStandard, C: Component> Rgb<S, C> {
    /// The same colour under the same standard, with the components
    /// rescaled to the kind `U`: each one keeps its relative intensity,
    /// rounded to `U`'s scale.
    pub fn into_format<U: FromComponent<C>>(self) -> (r: Rgb<S, U>)
        requires
            U::spec_in_range(self.red),
            U::spec_in_range(self.green),
            U::spec_in_range(self.blue),
        ensures
            r.red.spec_value() == scale_round(self.red.spec_value(), C::spec_max(), U::spec_max()),
            r.green.spec_value() == scale_round(
                self.green.spec_value(),
                C::spec_max(),
                U::spec_max(),
            ),
            r.blue.spec_value() == scale_round(
                self.blue.spec_value(),
                C::spec_max(),
                U::spec_max(),
            ),
    {
        Rgb::new(
            U::from_component(self.red),
            U::from_component(self.green),
            U::from_component(self.blue),
        )
    }

    /// The counterpart of [`Rgb::into_format`]: the colour `color`, its
    /// components rescaled to the kind `C`.
    pub fn from_format<U: Component>(color: Rgb<S, U>) -> (r: Self) where C: FromComponent<U>
        requires
            C::spec_in_range(color.red),
            C::spec_in_range(color.green),
            C::spec_in_range(color.blue),
        ensures
            r.red.spec_value() == scale_round(color.red.spec_value(), U::spec_max(), C::spec_max()),
            r.green.spec_value() == scale_round(
                color.green.spec_value(),
                U::spec_max(),
                C::spec_max(),
            ),
            r.blue.spec_value() == scale_round(
                color.blue.spec_value(),
                U::spec_max(),
                C::spec_max(),
            ),
    {
        color.into_format()
    }
}

impl<S: RgbStandard, C: Component> Rgba<S, C> {
    /// The colour widened with a fully opaque alpha: the colour components
    /// unchanged, the alpha at the component kind's full intensity.
    pub fn opaque(color: Rgb<S, C>) -> (r: Self)
        ensures
            r.color == color,
            r.alpha.spec_value() == C::spec_max(),
    {
        Rgba { color, alpha: C::max_intensity() }
    }

    /// Component conversion of an RGBA value: every component, alpha
    /// included, is rescaled to the kind `U` exactly as in
    /// [`Rgb::into_format`].
    pub fn into_format<U: FromComponent<C>>(self) -> (r: Rgba<S, U>)
        requires
            U::spec_in_range(self.color.red),
            U::spec_in_range(self.color.green),
            U::spec_in_range(self.color.blue),
            U::spec_in_range(self.alpha),
        ensures
            r.color.red.spec_value() == scale_round(
                self.color.red.spec_value(),
                C::spec_max(),
                U::spec_max(),
            ),
            r.color.green.spec_value() == scale_round(
                self.color.green.spec_value(),
                C::spec_max(),
                U::spec_max(),
            ),
            r.color.blue.spec_value() == scale_round(
                self.color.blue.spec_value(),
                C::spec_max(),
                U::spec_max(),
            ),
            r.alpha.spec_value() == scale_round(
                self.alpha.spec_value(),
                C::spec_max(),
                U::spec_max(),
            ),
    {
        Rgba { color: self.color.into_format(), alpha: U::from_component(self.alpha) }
    }

    /// The counterpart of [`Rgba::into_format`].
    pub fn from_format<U: Component>(color: Rgba<S, U>) -> (r: Self) where C: FromComponent<U>
        requires
            C::spec_in_range(color.color.red),
            C::spec_in_range(color.color.green),
            C::spec_in_range(color.color.blue),
            C::spec_in_range(color.alpha),
        ensures
            r.color.red.spec_value() == scale_round(
                color.color.red.spec_value(),
                U::spec_max(),
                C::spec_max(),
            ),
            r.color.green.spec_value() == scale_round(
                color.color.green.spec_value(),
                U::spec_max(),
                C::spec_max(),
            ),
            r.color.blue.spec_value() == scale_round(
                color.color.blue.spec_value(),
                U::spec_max(),
                C::spec_max(),
            ),
            r.alpha.spec_value() == scale_round(
                color.alpha.spec_value(),
                U::spec_max(),
                C::spec_max(),
            ),
    {
        color.into_format()
    }
}

impl<S: RgbStandard, C> Rgb<S, C> where S::TransferFn: TransferFn<C> {
    /// Decode into linear light: the standard's transfer function is
    /// inverted on each colour component, and the result is tagged with the
    /// linear variant of the same space. The input must already be tagged
    /// as encoded — the type is the only check, by design.
    pub fn into_linear(self) -> (r: Rgb<Linear<S::Space>, C>)
        ensures
            r.red == <S::TransferFn as TransferFn<C>>::spec_into_linear(self.red),
            r.green == <S::TransferFn as TransferFn<C>>::spec_into_linear(self.green),
            r.blue == <S::TransferFn as TransferFn<C>>::spec_into_linear(self.blue),
    {
        Rgb::new(
            <S::TransferFn as TransferFn<C>>::into_linear(self.red),
            <S::TransferFn as TransferFn<C>>::into_linear(self.green),
            <S::TransferFn as TransferFn<C>>::into_linear(self.blue),
        )
    }

    /// Encode linear light: the standard's transfer function is applied to
    /// each colour component of a colour tagged with the linear variant of
    /// this standard's space, and the result carries this standard's tag.
    pub fn from_linear(color: Rgb<Linear<S::Space>, C>) -> (r: Self)
        ensures
            r.red == <S::TransferFn as TransferFn<C>>::spec_from_linear(color.red),
            r.green == <S::TransferFn as TransferFn<C>>::spec_from_linear(color.green),
            r.blue == <S::TransferFn as TransferFn<C>>::spec_from_linear(color.blue),
    {
        Rgb::new(
            <S::TransferFn as TransferFn<C>>::from_linear(color.red),
            <S::TransferFn as TransferFn<C>>::from_linear(color.green),
            <S::TransferFn as TransferFn<C>>::from_linear(color.blue),
        )
    }

    /// Convert to another standard of the same space, by way of linear
    /// light: decode with this standard's transfer function, re-encode with
    /// the target's. This composition is the only supported path between
    /// two encoded standards.
    pub fn into_encoding<St: RgbStandard<Space = S::Space>>(self) -> (r: Rgb<St, C>) where
        St::TransferFn: TransferFn<C>,
        ensures
            r.red == <St::TransferFn as TransferFn<C>>::spec_from_linear(
                <S::TransferFn as TransferFn<C>>::spec_into_linear(self.red),
            ),
            r.green == <St::TransferFn as TransferFn<C>>::spec_from_linear(
                <S::TransferFn as TransferFn<C>>::spec_into_linear(self.green),
            ),
            r.blue == <St::TransferFn as TransferFn<C>>::spec_from_linear(
                <S::TransferFn as TransferFn<C>>::spec_into_linear(self.blue),
            ),
    {
        Rgb::from_linear(self.into_linear())
    }

    /// The counterpart of [`Rgb::into_encoding`]: the colour `color`,
    /// re-encoded from its own standard into this one by way of linear
    /// light.
    pub fn from_encoding<St: RgbStandard<Space = S::Space>>(color: Rgb<St, C>) -> (r: Self) where
        St::TransferFn: TransferFn<C>,
        ensures
            r.red == <S::TransferFn as TransferFn<C>>::spec_from_linear(
                <St::TransferFn as TransferFn<C>>::spec_into_linear(color.red),
            ),
            r.green == <S::TransferFn as TransferFn<C>>::spec_from_linear(
                <St::TransferFn as TransferFn<C>>::spec_into_linear(color.green),
            ),
            r.blue == <S::TransferFn as TransferFn<C>>::spec_from_linear(
                <St::TransferFn as TransferFn<C>>::spec_into_linear(color.blue),
            ),
    {
        Rgb::from_linear(color.into_linear())
    }
}

impl<S: RgbStandard, C> Rgba<S, C> where S::TransferFn: TransferFn<C> {
    /// Decode into linear light: the colour components exactly as
    /// [`Rgb::into_linear`] decodes them; the alpha component passes
    /// through untouched.
    pub fn into_linear(self) -> (r: Rgba<Linear<S::Space>, C>)
        ensures
            r.color.red == <S::TransferFn as TransferFn<C>>::spec_into_linear(self.color.red),
            r.color.green == <S::TransferFn as TransferFn<C>>::spec_into_linear(self.color.green),
            r.color.blue == <S::TransferFn as TransferFn<C>>::spec_into_linear(self.color.blue),
            r.alpha == self.alpha,
    {
        Rgba { color: self.color.into_linear(), alpha: self.alpha }
    }

    /// Encode linear light: the colour components exactly as
    /// [`Rgb::from_linear`] encodes them; the alpha component passes
    /// through untouched.
    pub fn from_linear(color: Rgba<Linear<S::Space>, C>) -> (r: Self)
        ensures
            r.color.red == <S::TransferFn as TransferFn<C>>::spec_from_linear(color.color.red),
            r.color.green == <S::TransferFn as TransferFn<C>>::spec_from_linear(color.color.green),
            r.color.blue == <S::TransferFn as TransferFn<C>>::spec_from_linear(color.color.blue),
            r.alpha == color.alpha,
    {
        Rgba { color: Rgb::from_linear(color.color), alpha: color.alpha }
    }

    /// Convert to another standard of the same space by way of linear
    /// light: the colour components exactly as [`Rgb::into_encoding`]
    /// converts them; the alpha component passes through untouched.
    pub fn into_encoding<St: RgbStandard<Space = S::Space>>(self) -> (r: Rgba<St, C>) where
        St::TransferFn: TransferFn<C>,
        ensures
            r.color.red == <St::TransferFn as TransferFn<C>>::spec_from_linear(
                <S::TransferFn as TransferFn<C>>::spec_into_linear(self.color.red),
            ),
            r.color.green == <St::TransferFn as TransferFn<C>>::spec_from_linear(
                <S::TransferFn as TransferFn<C>>::spec_into_linear(self.color.green),
            ),
            r.color.blue == <St::TransferFn as TransferFn<C>>::spec_from_linear(
                <S::TransferFn as TransferFn<C>>::spec_into_linear(self.color.blue),
            ),
            r.alpha == self.alpha,
    {
        Rgba { color: self.color.into_encoding(), alpha: self.alpha }
    }

    /// The counterpart of [`Rgba::into_encoding`]: the colour components
    /// exactly as [`Rgb::from_encoding`] converts them; the alpha
    /// component passes through untouched.
    pub fn from_encoding<St: RgbStandard<Space = S::Space>>(color: Rgba<St, C>) -> (r: Self) where
        St::TransferFn: TransferFn<C>,
        ensures
            r.color.red == <S::TransferFn as TransferFn<C>>::spec_from_linear(
                <St::TransferFn as TransferFn<C>>::spec_into_linear(color.color.red),
            ),
            r.color.green == <S::TransferFn as TransferFn<C>>::spec_from_linear(
                <St::TransferFn as TransferFn<C>>::spec_into_linear(color.color.green),
            ),
            r.color.blue == <S::TransferFn as TransferFn<C>>::spec_from_linear(
                <St::TransferFn as TransferFn<C>>::spec_into_linear(color.color.blue),
            ),
            r.alpha == color.alpha,
    {
        Rgba { color: Rgb::from_encoding(color.color), alpha: color.alpha }
    }
}

/// Non-linear sRGB.
pub type Srgb<T> = Rgb<crate::encoding::Srgb, T>;

/// Non-linear sRGB with an alpha component.
pub type Srgba<T> = Rgba<crate::encoding::Srgb, T>;

/// Linear sRGB.
pub type LinSrgb<T> = Rgb<Linear<crate::encoding::Srgb>, T>;

/// Linear sRGB with an alpha component.
pub type LinSrgba<T> = Rgba<Linear<crate::encoding::Srgb>, T>;

/// Gamma 2.2 encoded sRGB.
pub type GammaSrgb<T> = Rgb<crate::encoding::Gamma<crate::encoding::Srgb>, T>;

/// Gamma 2.2 encoded sRGB with an alpha component.
pub type GammaSrgba<T> = Rgba<crate::encoding::Gamma<crate::encoding::Srgb>, T>;

/// Standard composition resolves to its pieces: a standard composed from a
/// space `(P, W)` and a transfer function `T` — whether as the pair
/// `((P, W), T)` or directly as the triple `(P, W, T)` — has exactly the
/// primaries of `P` and the white point of `W`, so it behaves as one
/// hand-written from the same pieces.
pub proof fn lemma_standard_composition<P: Primaries, W: WhitePoint, T>()
    ensures
        <<((P, W), T) as RgbStandard>::Space as RgbSpace>::Primaries::spec_red() == P::spec_red(),
        <<((P, W), T) as RgbStandard>::Space as RgbSpace>::Primaries::spec_green()
            == P::spec_green(),
        <<((P, W), T) as RgbStandard>::Space as RgbSpace>::Primaries::spec_blue() == P::spec_blue(),
        <<((P, W), T) as RgbStandard>::Space as RgbSpace>::WhitePoint::spec_xyz() == W::spec_xyz(),
        <<(P, W, T) as RgbStandard>::Space as RgbSpace>::Primaries::spec_red() == P::spec_red(),
        <<(P, W, T) as RgbStandard>::Space as RgbSpace>::Primaries::spec_green() == P::spec_green(),
        <<(P, W, T) as RgbStandard>::Space as RgbSpace>::Primaries::spec_blue() == P::spec_blue(),
        <<(P, W, T) as RgbStandard>::Space as RgbSpace>::WhitePoint::spec_xyz() == W::spec_xyz(),
{
}

/// The other half of standard composition: the composed standard converts
/// exactly as its transfer-function piece does, on every component — so,
/// with [`lemma_standard_composition`], a composed standard behaves
/// identically to one hand-written from the same three pieces.
pub proof fn lemma_standard_composition_transfer<
    P: Primaries,
    W: WhitePoint,
    T: TransferFn<C>,
    C,
>(x: C)
    ensures
        <<((P, W), T) as RgbStandard>::TransferFn as TransferFn<C>>::spec_from_linear(x)
            == T::spec_from_linear(x),
        <<((P, W), T) as RgbStandard>::TransferFn as TransferFn<C>>::spec_into_linear(x)
            == T::spec_into_linear(x),
        <<(P, W, T) as RgbStandard>::TransferFn as TransferFn<C>>::spec_from_linear(x)
            == T::spec_from_linear(x),
        <<(P, W, T) as RgbStandard>::TransferFn as TransferFn<C>>::spec_into_linear(x)
            == T::spec_into_linear(x),
{
}

/// The hand-written sRGB standard resolves exactly as the one composed
/// generically from its three pieces: the sRGB primaries, the D65 white
/// point and the sRGB curve.
pub proof fn lemma_srgb_composition()
    ensures
        <<crate::encoding::Srgb as RgbStandard>::Space as RgbSpace>::Primaries::spec_red()
            == <<(crate::encoding::Srgb, D65, crate::encoding::Srgb) as RgbStandard>::Space as RgbSpace>::Primaries::spec_red(),
        <<crate::encoding::Srgb as RgbStandard>::Space as RgbSpace>::Primaries::spec_green()
            == <<(crate::encoding::Srgb, D65, crate::encoding::Srgb) as RgbStandard>::Space as RgbSpace>::Primaries::spec_green(),
        <<crate::encoding::Srgb as RgbStandard>::Space as RgbSpace>::Primaries::spec_blue()
            == <<(crate::encoding::Srgb, D65, crate::encoding::Srgb) as RgbStandard>::Space as RgbSpace>::Primaries::spec_blue(),
        <<crate::encoding::Srgb as RgbStandard>::Space as RgbSpace>::WhitePoint::spec_xyz()
            == <<(crate::encoding::Srgb, D65, crate::encoding::Srgb) as RgbStandard>::Space as RgbSpace>::WhitePoint::spec_xyz(),
{
}

} // verus!
