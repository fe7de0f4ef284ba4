//! The component model: what a single numeric channel value is, and how a
//! value moves between component kinds.
//!
//! Every component kind has a fixed maximum that stands for full intensity,
//! and a conversion between two kinds preserves relative intensity: the
//! target value is `source * target_max / source_max`, rounded to nearest.
//! Nothing is ever clamped on the way: an over-range value (out of gamut, or
//! high dynamic range) converts to an over-range value.

use vstd::prelude::*;

verus! {

/// The value `v` rescaled from the scale whose full intensity is `from_max`
/// to the scale whose full intensity is `to_max`, rounded to the nearest
/// integer (halves round up). This is the meaning of every component
/// conversion: `scale_round(v, from_max, to_max) / to_max ~ v / from_max`.
pub open spec fn scale_round(v: int, from_max: int, to_max: int) -> int
    recommends
        from_max > 0,
{
    (2 * v * to_max + from_max) / (2 * from_max)
}

/// A component kind: one numeric channel value with a known full-intensity
/// maximum. `spec_value` reads the stored number on the kind's own integer
/// scale; `stored / max` is the relative intensity the value means.
pub trait Component: Sized + Copy {
    /// The stored number, as a plain integer on this kind's scale.
    spec fn spec_value(self) -> int;

    /// The number that stands for full intensity in this kind.
    spec fn spec_max() -> int;

    /// Every kind's maximum is positive, so scaling by it is meaningful.
    proof fn lemma_max_positive()
        ensures
            Self::spec_max() > 0,
    ;

    /// The value of full intensity.
    fn max_intensity() -> (r: Self)
        ensures
            r.spec_value() == Self::spec_max(),
    ;
}

/// Conversion into `Self` from another component kind, preserving relative
/// intensity with round-to-nearest scaling and never clamping.
pub trait FromComponent<T: Component>: Component {
    /// Whether `v` lands inside `Self`'s representable range once rescaled.
    /// Conversions into a wider kind accept everything; a narrowing
    /// conversion asks the caller to keep the scaled value representable.
    spec fn spec_in_range(v: T) -> bool;

    /// Rescale `v` to this kind's scale.
    fn from_component(v: T) -> (r: Self)
        requires
            Self::spec_in_range(v),
        ensures
            r.spec_value() == scale_round(v.spec_value(), T::spec_max(), Self::spec_max()),
    ;
}

/// A floating component kind: the raw arithmetic that the transfer curves
/// are built from. Each operation is paired with a spec function that names
/// its result, so the curves built on top can state exactly which formula
/// they compute, over those names. What the operations are numerically is
/// left to the implementing type, which lives outside the verified core:
/// nothing here pins `spec_powf` to a power function, only every exec call
/// to the one result its implementor computes.
pub trait FloatComponent: Sized + Copy {
    /// The value `num / den`.
    open spec fn spec_of_ratio(num: u32, den: u32) -> Self {
        vstd::pervasive::arbitrary()
    }

    /// Whether `self <= other` numerically.
    open spec fn spec_le(self, other: Self) -> bool {
        vstd::pervasive::arbitrary()
    }

    /// The sum of `self` and `other`.
    open spec fn spec_plus(self, other: Self) -> Self {
        vstd::pervasive::arbitrary()
    }

    /// The difference of `self` and `other`.
    open spec fn spec_minus(self, other: Self) -> Self {
        vstd::pervasive::arbitrary()
    }

    /// The product of `self` and `other`.
    open spec fn spec_times(self, other: Self) -> Self {
        vstd::pervasive::arbitrary()
    }

    /// The quotient of `self` by `other`.
    open spec fn spec_div_by(self, other: Self) -> Self {
        vstd::pervasive::arbitrary()
    }

    /// `self` raised to the power `e`.
    open spec fn spec_powf(self, e: Self) -> Self {
        vstd::pervasive::arbitrary()
    }

    /// The value `num / den`.
    fn of_ratio(num: u32, den: u32) -> (r: Self)
        ensures
            r == Self::spec_of_ratio(num, den),
    ;

    /// Whether `self <= other` numerically.
    fn is_le(&self, other: &Self) -> (r: bool)
        ensures
            r == self.spec_le(*other),
    ;

    /// Addition.
    fn plus(self, other: Self) -> (r: Self)
        ensures
            r == self.spec_plus(other),
    ;

    /// Subtraction.
    fn minus(self, other: Self) -> (r: Self)
        ensures
            r == self.spec_minus(other),
    ;

    /// Multiplication.
    fn times(self, other: Self) -> (r: Self)
        ensures
            r == self.spec_times(other),
    ;

    /// Division.
    fn div_by(self, other: Self) -> (r: Self)
        ensures
            r == self.spec_div_by(other),
    ;

    /// `self` raised to the power `e`.
    fn powf(self, e: Self) -> (r: Self)
        ensures
            r == self.spec_powf(e),
    ;
}

/// How many micro-units stand for full intensity in [`Fixed`].
pub const FIXED_ONE: i64 = 1000000;

/// A normalized component stored in millionths: the value `micros /
/// 1_000_000`, where `1_000_000` is full intensity. The stored number may
/// exceed the maximum or go below zero — out-of-gamut and high-dynamic-range
/// values stay representable and are never clamped by storage.
#[derive(Clone, Copy, PartialEq, Eq, Debug)]
pub struct Fixed {
    /// Millionths of full intensity.
    pub micros: i64,
}

impl Fixed {
    /// The component worth `micros / 1_000_000` of full intensity.
    pub fn from_micros(micros: i64) -> (r: Fixed)
        ensures
            r.micros == micros,
    {
        Fixed { micros }
    }

    /// The stored number of millionths.
    pub fn micros(self) -> (r: i64)
        ensures
            r == self.micros,
    {
        self.micros
    }

    /// The value clamped into the unit range. Clamping is this separate,
    /// explicit operation: no conversion or storage ever clamps on its own.
    pub fn clamped(self) -> (r: Fixed)
        ensures
            r.micros == (if self.micros < 0 {
                0i64
            } else if self.micros > FIXED_ONE {
                FIXED_ONE
            } else {
                self.micros
            }),
    {
        if self.micros < 0 {
            Fixed { micros: 0 }
        } else if self.micros > FIXED_ONE {
            Fixed { micros: FIXED_ONE }
        } else {
            self
        }
    }
}

/// When a narrowing conversion out of [`Fixed`] is owed to succeed: a value
/// inside the unit range rescales into the range of every coarser kind, so
/// it always meets the narrowing precondition.
pub proof fn lemma_unit_value_fits(m: int, to_max: int)
    requires
        0 <= m <= FIXED_ONE as int,
        0 < to_max <= FIXED_ONE as int,
    ensures
        0 <= scale_round(m, FIXED_ONE as int, to_max) <= to_max,
{
    let one = FIXED_ONE as int;
    let n = 2 * m * to_max + one;
    assert(0 <= 2 * m * to_max) by (nonlinear_arith)
        requires
            0 <= m,
            0 < to_max,
    ;
    vstd::arithmetic::div_mod::lemma_div_pos_is_pos(n, 2 * one);
    vstd::arithmetic::div_mod::lemma_fundamental_div_mod(n, 2 * one);
    vstd::arithmetic::div_mod::lemma_mod_bound(n, 2 * one);
    let q = n / (2 * one);
    assert(2 * m * to_max <= 2 * one * to_max) by (nonlinear_arith)
        requires
            m <= one,
            0 < to_max,
    ;
    if q > to_max {
        assert(2 * one * q >= 2 * one * (to_max + 1) && 2 * one * (to_max + 1) == 2 * one * to_max
            + 2 * one) by (nonlinear_arith)
            requires
                q >= to_max + 1,
                0 < one,
        ;
        assert(false);
    }
}

impl Component for Fixed {
    open spec fn spec_value(self) -> int {
        self.micros as int
    }

    open spec fn spec_max() -> int {
        FIXED_ONE as int
    }

    proof fn lemma_max_positive()
    {
    }

    fn max_intensity() -> (r: Self) {
        Fixed { micros: FIXED_ONE }
    }
}

impl Component for u8 {
    open spec fn spec_value(self) -> int {
        self as int
    }

    open spec fn spec_max() -> int {
        255
    }

    proof fn lemma_max_positive()
    {
    }

    fn max_intensity() -> (r: Self) {
        255
    }
}

impl Component for u16 {
    open spec fn spec_value(self) -> int {
        self as int
    }

    open spec fn spec_max() -> int {
        65535
    }

    proof fn lemma_max_positive()
    {
    }

    fn max_intensity() -> (r: Self) {
        65535
    }
}

/// Division pinned down by bracketing: when `q * d <= n < (q + 1) * d`,
/// the quotient `n / d` is exactly `q`.
proof fn lemma_div_val(n: int, d: int, q: int)
    requires
        d > 0,
        q * d <= n,
        n < (q + 1) * d,
    ensures
        n / d == q,
{
    assert((q + 1) * d == q * d + d) by (nonlinear_arith);
    vstd::arithmetic::div_mod::lemma_fundamental_div_mod_converse(n, d, q, n - q * d);
}

/// Rescaling a value onto the same scale changes nothing.
pub proof fn lemma_scale_round_id(v: int, m: int)
    requires
        m > 0,
    ensures
        scale_round(v, m, m) == v,
{
    assert(2 * v * m + m == v * (2 * m) + m) by (nonlinear_arith);
    vstd::arithmetic::div_mod::lemma_fundamental_div_mod_converse(2 * v * m + m, 2 * m, v, m);
}

/// Round trip of the component conversion: rescaling a non-negative value
/// to a scale at least as fine and back yields the value exactly — widening
/// then narrowing loses nothing to rounding.
pub proof fn lemma_scale_round_trip(v: int, from_max: int, to_max: int)
    requires
        0 < from_max <= to_max,
        0 <= v,
    ensures
        scale_round(scale_round(v, from_max, to_max), to_max, from_max) == v,
{
    if from_max == to_max {
        lemma_scale_round_id(v, from_max);
    } else {
        let fm = from_max;
        let tm = to_max;
        let n1 = 2 * v * tm + fm;
        let r1 = scale_round(v, fm, tm);
        vstd::arithmetic::div_mod::lemma_fundamental_div_mod(n1, 2 * fm);
        let rr = n1 % (2 * fm);
        vstd::arithmetic::div_mod::lemma_mod_bound(n1, 2 * fm);
        assert(n1 == 2 * fm * r1 + rr);
        let n2 = 2 * r1 * fm + tm;
        assert(n2 == n1 - rr + tm) by (nonlinear_arith)
            requires
                n1 == 2 * fm * r1 + rr,
                n2 == 2 * r1 * fm + tm,
        ;
        assert(v * (2 * tm) == 2 * v * tm) by (nonlinear_arith);
        assert((v + 1) * (2 * tm) == 2 * v * tm + 2 * tm) by (nonlinear_arith);
        lemma_div_val(n2, 2 * tm, v);
    }
}

/// Rescaling preserves order: a component no brighter than another stays no
/// brighter after conversion, whatever the scales — relative intensity is
/// never inverted.
pub proof fn lemma_scale_round_monotone(a: int, b: int, from_max: int, to_max: int)
    requires
        0 < from_max,
        0 <= to_max,
        a <= b,
    ensures
        scale_round(a, from_max, to_max) <= scale_round(b, from_max, to_max),
{
    assert(2 * a * to_max <= 2 * b * to_max) by (nonlinear_arith)
        requires
            a <= b,
            0 <= to_max,
    ;
    vstd::arithmetic::div_mod::lemma_div_is_ordered(
        2 * a * to_max + from_max,
        2 * b * to_max + from_max,
        2 * from_max,
    );
}

/// Round trip of the component conversion at the 8-bit kind: any 8-bit
/// value rescaled up to the normalized kind and back comes out exactly —
/// no off-by-one drift under round-to-nearest.
pub proof fn lemma_u8_format_round_trip(v: u8)
    ensures
        scale_round(scale_round(v as int, 255, FIXED_ONE as int), FIXED_ONE as int, 255)
            == v as int,
{
    lemma_scale_round_trip(v as int, 255, FIXED_ONE as int);
}

/// Round trip of the component conversion at the 16-bit kind.
pub proof fn lemma_u16_format_round_trip(v: u16)
    ensures
        scale_round(scale_round(v as int, 65535, FIXED_ONE as int), FIXED_ONE as int, 65535)
            == v as int,
{
    lemma_scale_round_trip(v as int, 65535, FIXED_ONE as int);
}

impl FromComponent<u8> for u8 {
    open spec fn spec_in_range(v: u8) -> bool {
        true
    }

    fn from_component(v: u8) -> (r: Self) {
        proof {
            lemma_scale_round_id(v as int, 255);
        }
        v
    }
}

impl FromComponent<u16> for u16 {
    open spec fn spec_in_range(v: u16) -> bool {
        true
    }

    fn from_component(v: u16) -> (r: Self) {
        proof {
            lemma_scale_round_id(v as int, 65535);
        }
        v
    }
}

impl FromComponent<Fixed> for Fixed {
    open spec fn spec_in_range(v: Fixed) -> bool {
        true
    }

    fn from_component(v: Fixed) -> (r: Self) {
        proof {
            lemma_scale_round_id(v.micros as int, 1000000);
        }
        v
    }
}

impl FromComponent<u8> for u16 {
    open spec fn spec_in_range(v: u8) -> bool {
        true
    }

    fn from_component(v: u8) -> (r: Self) {
        proof {
            assert(2 * (v as int) * 65535 + 255 == (257 * (v as int)) * (2 * 255) + 255)
                by (nonlinear_arith);
            vstd::arithmetic::div_mod::lemma_fundamental_div_mod_converse(
                2 * (v as int) * 65535 + 255,
                2 * 255int,
                257 * (v as int),
                255,
            );
        }
        (v as u16) * 257
    }
}

impl FromComponent<u16> for u8 {
    open spec fn spec_in_range(v: u16) -> bool {
        true
    }

    fn from_component(v: u16) -> (r: Self) {
        let n: u64 = 2 * (v as u64) * 255 + 65535;
        let q: u64 = n / (2 * 65535);
        proof {
            vstd::arithmetic::div_mod::lemma_div_is_ordered(
                n as int,
                2 * 65535 * 255 + 65535int,
                2 * 65535int,
            );
            vstd::arithmetic::div_mod::lemma_div_pos_is_pos(n as int, 2 * 65535int);
        }
        q as u8
    }
}

impl FromComponent<u8> for Fixed {
    open spec fn spec_in_range(v: u8) -> bool {
        true
    }

    fn from_component(v: u8) -> (r: Self) {
        let n: i64 = 2 * (v as i64) * 1000000 + 255;
        Fixed { micros: n / (2 * 255) }
    }
}

impl FromComponent<u16> for Fixed {
    open spec fn spec_in_range(v: u16) -> bool {
        true
    }

    fn from_component(v: u16) -> (r: Self) {
        let n: i64 = 2 * (v as i64) * 1000000 + 65535;
        Fixed { micros: n / (2 * 65535) }
    }
}

/// What a narrowing conversion out of [`Fixed`] asks of the caller: once
/// rescaled and rounded, the value must land inside the target's own range.
/// Out-of-gamut values have no representation in a bounded integer kind, and
/// this library never clamps silently.
pub open spec fn fixed_fits(micros: int, to_max: int) -> bool {
    0 <= scale_round(micros, FIXED_ONE as int, to_max) <= to_max
}

impl FromComponent<Fixed> for u8 {
    open spec fn spec_in_range(v: Fixed) -> bool {
        fixed_fits(v.micros as int, 255)
    }

    fn from_component(v: Fixed) -> (r: Self) {
        let m = v.micros;
        let ghost n = 2 * (m as int) * 255 + 1000000;
        let ghost d = 2 * 1000000int;
        let ghost q = n / d;
        proof {
            vstd::arithmetic::div_mod::lemma_fundamental_div_mod(n, d);
            vstd::arithmetic::div_mod::lemma_mod_bound(n, d);
            assert(0 <= q * d) by (nonlinear_arith)
                requires
                    0 <= q,
                    0 < d,
            ;
            assert(q * d <= 255 * d) by (nonlinear_arith)
                requires
                    q <= 255,
                    0 < d,
            ;
        }
        let n64: i64 = 2 * m * 255 + 1000000;
        let q64: i64 = n64 / 2000000;
        q64 as u8
    }
}

impl FromComponent<Fixed> for u16 {
    open spec fn spec_in_range(v: Fixed) -> bool {
        fixed_fits(v.micros as int, 65535)
    }

    fn from_component(v: Fixed) -> (r: Self) {
        let m = v.micros;
        let ghost n = 2 * (m as int) * 65535 + 1000000;
        let ghost d = 2 * 1000000int;
        let ghost q = n / d;
        proof {
            vstd::arithmetic::div_mod::lemma_fundamental_div_mod(n, d);
            vstd::arithmetic::div_mod::lemma_mod_bound(n, d);
            assert(0 <= q * d) by (nonlinear_arith)
                requires
                    0 <= q,
                    0 < d,
            ;
            assert(q * d <= 65535 * d) by (nonlinear_arith)
                requires
                    q <= 65535,
                    0 < d,
            ;
        }
        let n64: i64 = 2 * m * 65535 + 1000000;
        let q64: i64 = n64 / 2000000;
        q64 as u16
    }
}

} // verus!
