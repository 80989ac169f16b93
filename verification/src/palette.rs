//! The fixed wedge color palette and the per-segment color choice.
//!
//! Wedges are colored by position: the segment at 0-based position `p`
//! takes palette entry `(p + 1) mod 6`, except that the final segment of
//! the list always takes entry 0 — the background tone — so the last slice
//! of the day visually closes the circle.  The background wedge beneath
//! all segments also uses entry 0.

use vstd::prelude::*;

verus! {

/// Number of colors in the fixed palette.
pub const PALETTE_LEN: usize = 6;

/// Palette entry used for the background wedge, and for the final segment.
pub const BACKGROUND_COLOR_INDEX: usize = 0;

/// The fixed, non-empty palette of wedge fill colors, in order.
pub fn palette() -> (colors: Vec<&'static str>)
    ensures
        colors@.len() == PALETTE_LEN,
        colors@[0]@ == "#9AD3BC"@,
        colors@[1]@ == "#EDF6E5"@,
        colors@[2]@ == "#FFBCBC"@,
        colors@[3]@ == "#F38BA0"@,
        colors@[4]@ == "#B5EAEA"@,
        colors@[5]@ == "#87A8A4"@,
{
    let mut colors: Vec<&'static str> = Vec::new();
    colors.push("#9AD3BC");
    colors.push("#EDF6E5");
    colors.push("#FFBCBC");
    colors.push("#F38BA0");
    colors.push("#B5EAEA");
    colors.push("#87A8A4");
    colors
}

/// Palette index of the segment at 0-based position `pos` out of `count`
/// segments: the final segment reuses the background entry, every other
/// segment takes its 1-based position modulo the palette length.
pub open spec fn spec_color_index(pos: int, count: int) -> int {
    if pos == count - 1 {
        BACKGROUND_COLOR_INDEX as int
    } else {
        (pos + 1) % (PALETTE_LEN as int)
    }
}

/// Picks the palette index for the segment at position `pos` of `count`.
pub fn color_index(pos: usize, count: usize) -> (ci: usize)
    requires
        pos < count,
    ensures
        ci == spec_color_index(pos as int, count as int),
        ci < PALETTE_LEN,
{
    if pos == count - 1 {
        BACKGROUND_COLOR_INDEX
    } else {
        (pos + 1) % PALETTE_LEN
    }
}

/// The final segment of any non-empty segment list takes the same palette
/// entry as the background wedge.
pub proof fn lemma_last_color_is_background(count: int)
    requires
        count >= 1,
    ensures
        spec_color_index(count - 1, count) == BACKGROUND_COLOR_INDEX,
{
}

} // verus!
