//! Mapping of 8-bit coverage intensities to terminal density symbols.
//!
//! The 0..=255 intensity domain is partitioned into five bands, ordered from
//! "empty" to "full" visual density: 0 alone, 1..=84, 85..=169, 170..=254,
//! and 255 alone.

use vstd::prelude::*;

verus! {

/// The density symbol for one coverage intensity.
pub open spec fn shade_spec(value: u8) -> char {
    if value == 0 {
        ' '
    } else if value <= 84 {
        '\u{2591}'
    } else if value <= 169 {
        '\u{2592}'
    } else if value <= 254 {
        '\u{2593}'
    } else {
        '\u{2588}'
    }
}

/// Maps an 8-bit coverage value to one of five density symbols.
pub fn shade(value: u8) -> (c: char)
    ensures
        c == shade_spec(value),
{
    if value == 0 {
        ' '
    } else if value <= 84 {
        '\u{2591}'
    } else if value <= 169 {
        '\u{2592}'
    } else if value <= 254 {
        '\u{2593}'
    } else {
        '\u{2588}'
    }
}

/// The five intensity bands partition the whole 8-bit domain: every
/// intensity falls in exactly one band, and each band yields its own symbol.
pub proof fn lemma_shade_partition(value: u8)
    ensures
        (value == 0) ==> shade_spec(value) == ' ',
        (1 <= value <= 84) ==> shade_spec(value) == '\u{2591}',
        (85 <= value <= 169) ==> shade_spec(value) == '\u{2592}',
        (170 <= value <= 254) ==> shade_spec(value) == '\u{2593}',
        (value == 255) ==> shade_spec(value) == '\u{2588}',
        (value == 0) || (1 <= value <= 84) || (85 <= value <= 169) || (170 <= value <= 254)
            || (value == 255),
        !((value == 0) && (1 <= value <= 84)),
        !((1 <= value <= 84) && (85 <= value <= 169)),
        !((85 <= value <= 169) && (170 <= value <= 254)),
        !((170 <= value <= 254) && (value == 255)),
{
}

} // verus!
