//! The packed representation: four 8-bit channels placed into one 32-bit
//! integer by direct bit placement, in a caller-chosen channel order. No
//! numeric rescaling happens in this layer, so packing and unpacking are
//! bit-exact inverses. Only the 8-bit component kind matches the 8-bit
//! lanes, and only such colours can be packed — the signatures allow
//! nothing else. A packed value carries no standard information; the caller
//! tracks the standard out of band.

use vstd::prelude::*;
use core::marker::PhantomData;
use crate::rgb::{Rgb, Rgba, RgbStandard};

verus! {

/// A channel order: an ordered permutation naming which lane of the packed
/// integer holds each of red, green, blue and alpha. `spec_split` lays the
/// four channels out most significant lane first; `spec_combine` reads them
/// back, and the two are exact inverses.
pub trait RgbChannels {
    /// The four channels in packing order, most significant lane first.
    spec fn spec_split(r: u8, g: u8, b: u8, a: u8) -> (u8, u8, u8, u8);

    /// The (red, green, blue, alpha) channels read back from packing order.
    spec fn spec_combine(c: (u8, u8, u8, u8)) -> (u8, u8, u8, u8);

    /// Reading the laid-out lanes back yields the original channels: the
    /// order is a permutation, nothing is lost or duplicated.
    proof fn lemma_split_combine(r: u8, g: u8, b: u8, a: u8)
        ensures
            Self::spec_combine(Self::spec_split(r, g, b, a)) == (r, g, b, a),
    ;

    /// Lay the four channels out in packing order.
    fn split_channels(r: u8, g: u8, b: u8, a: u8) -> (t: (u8, u8, u8, u8))
        ensures
            t == Self::spec_split(r, g, b, a),
    ;

    /// Read the (red, green, blue, alpha) channels back from packing order.
    fn combine_channels(c: (u8, u8, u8, u8)) -> (t: (u8, u8, u8, u8))
        ensures
            t == Self::spec_combine(c),
    ;
}

/// Four 8-bit lanes placed into a 32-bit integer, first lane most
/// significant.
pub open spec fn spec_pack_u32(c: (u8, u8, u8, u8)) -> u32 {
    ((c.0 as u32) << 24) | ((c.1 as u32) << 16) | ((c.2 as u32) << 8) | (c.3 as u32)
}

/// The four 8-bit lanes of a 32-bit integer, most significant first.
pub open spec fn spec_unpack_u32(p: u32) -> (u8, u8, u8, u8) {
    (
        ((p >> 24) & 0xff) as u8,
        ((p >> 16) & 0xff) as u8,
        ((p >> 8) & 0xff) as u8,
        (p & 0xff) as u8,
    )
}

/// Bit placement is lossless: reading the lanes of a packed integer yields
/// exactly the lanes that were placed.
pub proof fn lemma_pack_unpack_u32(c: (u8, u8, u8, u8))
    ensures
        spec_unpack_u32(spec_pack_u32(c)) == c,
{
    let (c0, c1, c2, c3) = c;
    let p = spec_pack_u32(c);
    assert(p == ((c0 as u32) << 24) | ((c1 as u32) << 16) | ((c2 as u32) << 8) | (c3 as u32));
    assert((((((c0 as u32) << 24) | ((c1 as u32) << 16) | ((c2 as u32) << 8) | (c3 as u32)) >> 24)
        & 0xff) as u8 == c0) by (bit_vector);
    assert((((((c0 as u32) << 24) | ((c1 as u32) << 16) | ((c2 as u32) << 8) | (c3 as u32)) >> 16)
        & 0xff) as u8 == c1) by (bit_vector);
    assert((((((c0 as u32) << 24) | ((c1 as u32) << 16) | ((c2 as u32) << 8) | (c3 as u32)) >> 8)
        & 0xff) as u8 == c2) by (bit_vector);
    assert(((((c0 as u32) << 24) | ((c1 as u32) << 16) | ((c2 as u32) << 8) | (c3 as u32)) & 0xff)
        as u8 == c3) by (bit_vector);
}

/// An RGBA colour packed into a single 32-bit integer, the lanes ordered by
/// the channel order `C`.
#[verifier::reject_recursive_types(C)]
#[derive(PartialEq, Eq, Debug)]
pub struct Packed<C: RgbChannels> {
    /// The packed integer.
    pub color: u32,
    /// The channel order of the lanes.
    pub channel_order: PhantomData<C>,
}

impl<C: RgbChannels> Packed<C> {
    /// Pack a colour's four 8-bit channels into one integer: each channel's
    /// raw bits are placed at the lane that the order `C` names, with no
    /// rescaling.
    pub fn pack<S: RgbStandard>(color: Rgba<S, u8>) -> (r: Self)
        ensures
            r.color == spec_pack_u32(
                C::spec_split(color.color.red, color.color.green, color.color.blue, color.alpha),
            ),
    {
        let (c0, c1, c2, c3) = C::split_channels(
            color.color.red,
            color.color.green,
            color.color.blue,
            color.alpha,
        );
        Packed {
            color: ((c0 as u32) << 24) | ((c1 as u32) << 16) | ((c2 as u32) << 8) | (c3 as u32),
            channel_order: PhantomData,
        }
    }

    /// Pack a colour without an alpha channel: its alpha lane is filled
    /// with full opacity.
    pub fn pack_opaque<S: RgbStandard>(color: Rgb<S, u8>) -> (r: Self)
        ensures
            r.color == spec_pack_u32(
                C::spec_split(color.red, color.green, color.blue, 255),
            ),
    {
        Self::pack(Rgba::opaque(color))
    }

    /// Unpack the four 8-bit channels back out of the integer: the exact
    /// bits of each lane, reordered into red, green, blue, alpha.
    pub fn unpack<S: RgbStandard>(self) -> (r: Rgba<S, u8>)
        ensures
            (r.color.red, r.color.green, r.color.blue, r.alpha) == C::spec_combine(
                spec_unpack_u32(self.color),
            ),
    {
        let p = self.color;
        proof {
            assert(((p >> 24) & 0xff) < 256 && ((p >> 16) & 0xff) < 256 && ((p >> 8) & 0xff) < 256
                && (p & 0xff) < 256) by (bit_vector);
        }
        let lanes = (
            ((p >> 24) & 0xff) as u8,
            ((p >> 16) & 0xff) as u8,
            ((p >> 8) & 0xff) as u8,
            (p & 0xff) as u8,
        );
        let (red, green, blue, alpha) = C::combine_channels(lanes);
        Rgba::new(red, green, blue, alpha)
    }
}

/// Round trip of the packed layout: packing any four channel values in any
/// channel order and unpacking again recovers every channel exactly.
pub proof fn lemma_pack_round_trip<C: RgbChannels>(r: u8, g: u8, b: u8, a: u8)
    ensures
        C::spec_combine(spec_unpack_u32(spec_pack_u32(C::spec_split(r, g, b, a)))) == (
            r,
            g,
            b,
            a,
        ),
{
    lemma_pack_unpack_u32(C::spec_split(r, g, b, a));
    C::lemma_split_combine(r, g, b, a);
}

} // verus!
