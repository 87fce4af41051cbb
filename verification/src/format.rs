//! Color-format selection for the presentable surface.
//!
//! The surface reports a list of supported color formats. The engine only
//! cares which of them are SRGB-encoded, so the list is handed in as one
//! flag per reported format. The selection itself is a plain decision:
//! prefer the first SRGB entry, otherwise the first entry, otherwise a
//! fixed SRGB fallback when the surface reports nothing at all.

use vstd::prelude::*;

verus! {

/// The outcome of color-format selection.
#[derive(Clone, Copy, Debug, PartialEq, Eq, Structural)]
pub enum FormatChoice {
    /// Use the format at this index of the surface's reported list.
    Reported { index: usize },
    /// The surface reported no formats; use the engine's fixed SRGB
    /// fallback format.
    FallbackSrgb,
}

/// True if `srgb[i]` holds for some position before `i0`.
pub open spec fn has_srgb_before(srgb: Seq<bool>, i0: int) -> bool {
    exists|i: int| 0 <= i < i0 && srgb[i]
}

/// Selects the surface color format.
///
/// `srgb` holds one flag per format the surface reported, in report
/// order, true exactly for the SRGB-encoded ones. The first SRGB format
/// wins; with no SRGB entry the first reported format wins; with no
/// reported format at all the engine falls back to its fixed SRGB format.
pub fn select_color_format(srgb: &Vec<bool>) -> (choice: FormatChoice)
    ensures
        srgb@.len() == 0 <==> choice is FallbackSrgb,
        has_srgb_before(srgb@, srgb@.len() as int) ==> {
            &&& choice matches FormatChoice::Reported { index }
            &&& index < srgb@.len()
            &&& srgb@[index as int]
            &&& !has_srgb_before(srgb@, index as int)
        },
        srgb@.len() > 0 && !has_srgb_before(srgb@, srgb@.len() as int) ==> choice
            == (FormatChoice::Reported { index: 0 }),
{
    let n: usize = srgb.len();
    let mut i: usize = 0;
    while i < n
        invariant
            0 <= i <= n,
            n == srgb@.len(),
            !has_srgb_before(srgb@, i as int),
        decreases n - i,
    {
        if srgb[i] {
            return FormatChoice::Reported { index: i };
        }
        i += 1;
    }
    if n > 0 {
        FormatChoice::Reported { index: 0 }
    } else {
        FormatChoice::FallbackSrgb
    }
}

} // verus!
