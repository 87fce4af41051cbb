//! Two-dimensional pixel extents and clamping.

use vstd::prelude::*;

verus! {

/// A surface or window size in physical pixels.
#[derive(Clone, Copy, Debug, PartialEq, Eq, Structural)]
pub struct Extent2d {
    pub width: u32,
    pub height: u32,
}

/// `v` forced into the inclusive range `lo ..= hi` (assuming `lo <= hi`).
pub open spec fn clamped(v: u32, lo: u32, hi: u32) -> u32 {
    if v < lo {
        lo
    } else if v > hi {
        hi
    } else {
        v
    }
}

/// `e` clamped dimension-wise into the box spanned by `lo` and `hi`.
pub open spec fn clamped_extent(e: Extent2d, lo: Extent2d, hi: Extent2d) -> Extent2d {
    Extent2d {
        width: clamped(e.width, lo.width, hi.width),
        height: clamped(e.height, lo.height, hi.height),
    }
}

/// Forces `v` into the inclusive range `lo ..= hi`.
pub fn clamp_dim(v: u32, lo: u32, hi: u32) -> (r: u32)
    ensures
        r == clamped(v, lo, hi),
        lo <= hi ==> lo <= r <= hi,
{
    if v < lo {
        lo
    } else if v > hi {
        hi
    } else {
        v
    }
}

/// Forces `e` dimension-wise into the box spanned by `lo` and `hi`.
pub fn clamp_extent(e: Extent2d, lo: Extent2d, hi: Extent2d) -> (r: Extent2d)
    ensures
        r == clamped_extent(e, lo, hi),
        lo.width <= hi.width ==> lo.width <= r.width <= hi.width,
        lo.height <= hi.height ==> lo.height <= r.height <= hi.height,
{
    Extent2d {
        width: clamp_dim(e.width, lo.width, hi.width),
        height: clamp_dim(e.height, lo.height, hi.height),
    }
}

} // verus!
