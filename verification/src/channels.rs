//! Channel orders for the packed representation: which bit lane of the
//! packed integer holds each of red, green, blue and alpha.

use vstd::prelude::*;
use crate::packed::RgbChannels;

verus! {

/// Alpha, blue, green, red — most significant lane first.
#[derive(Clone, Copy, PartialEq, Eq, Structural, Debug)]
pub struct Abgr;

impl RgbChannels for Abgr {
    open spec fn spec_split(r: u8, g: u8, b: u8, a: u8) -> (u8, u8, u8, u8) {
        (a, b, g, r)
    }

    open spec fn spec_combine(c: (u8, u8, u8, u8)) -> (u8, u8, u8, u8) {
        (c.3, c.2, c.1, c.0)
    }

    proof fn lemma_split_combine(r: u8, g: u8, b: u8, a: u8) {
    }

    fn split_channels(r: u8, g: u8, b: u8, a: u8) -> (t: (u8, u8, u8, u8)) {
        (a, b, g, r)
    }

    fn combine_channels(c: (u8, u8, u8, u8)) -> (t: (u8, u8, u8, u8)) {
        (c.3, c.2, c.1, c.0)
    }
}

/// Alpha, red, green, blue — most significant lane first.
#[derive(Clone, Copy, PartialEq, Eq, Structural, Debug)]
pub struct Argb;

impl RgbChannels for Argb {
    open spec fn spec_split(r: u8, g: u8, b: u8, a: u8) -> (u8, u8, u8, u8) {
        (a, r, g, b)
    }

    open spec fn spec_combine(c: (u8, u8, u8, u8)) -> (u8, u8, u8, u8) {
        (c.1, c.2, c.3, c.0)
    }

    proof fn lemma_split_combine(r: u8, g: u8, b: u8, a: u8) {
    }

    fn split_channels(r: u8, g: u8, b: u8, a: u8) -> (t: (u8, u8, u8, u8)) {
        (a, r, g, b)
    }

    fn combine_channels(c: (u8, u8, u8, u8)) -> (t: (u8, u8, u8, u8)) {
        (c.1, c.2, c.3, c.0)
    }
}

/// Blue, green, red, alpha — most significant lane first.
#[derive(Clone, Copy, PartialEq, Eq, Structural, Debug)]
pub struct Bgra;

impl RgbChannels for Bgra {
    open spec fn spec_split(r: u8, g: u8, b: u8, a: u8) -> (u8, u8, u8, u8) {
        (b, g, r, a)
    }

    open spec fn spec_combine(c: (u8, u8, u8, u8)) -> (u8, u8, u8, u8) {
        (c.2, c.1, c.0, c.3)
    }

    proof fn lemma_split_combine(r: u8, g: u8, b: u8, a: u8) {
    }

    fn split_channels(r: u8, g: u8, b: u8, a: u8) -> (t: (u8, u8, u8, u8)) {
        (b, g, r, a)
    }

    fn combine_channels(c: (u8, u8, u8, u8)) -> (t: (u8, u8, u8, u8)) {
        (c.2, c.1, c.0, c.3)
    }
}

/// Red, green, blue, alpha — most significant lane first.
#[derive(Clone, Copy, PartialEq, Eq, Structural, Debug)]
pub struct Rgba;

impl RgbChannels for Rgba {
    open spec fn spec_split(r: u8, g: u8, b: u8, a: u8) -> (u8, u8, u8, u8) {
        (r, g, b, a)
    }

    open spec fn spec_combine(c: (u8, u8, u8, u8)) -> (u8, u8, u8, u8) {
        c
    }

    proof fn lemma_split_combine(r: u8, g: u8, b: u8, a: u8) {
    }

    fn split_channels(r: u8, g: u8, b: u8, a: u8) -> (t: (u8, u8, u8, u8)) {
        (r, g, b, a)
    }

    fn combine_channels(c: (u8, u8, u8, u8)) -> (t: (u8, u8, u8, u8)) {
        c
    }
}

} // verus!
