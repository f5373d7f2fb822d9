//! Mapping of a coverage percentage to a severity color.
//!
//! The scale is graduated over fixed cutoffs, anchored so that 85% and
//! above shows bright green and 30% and below shows red, in keeping with
//! common badge-service conventions for the shades in between.

use vstd::prelude::*;
use crate::percentage::Percentage;

verus! {

/// The hex color for a value given in tenths of a percent:
/// bright green from 85%, green from 70%, yellow from 55%,
/// orange from 40%, red below that.
pub open spec fn spec_coverage_color(tenths: int) -> Seq<char> {
    if tenths >= 850 {
        "#4c1"@
    } else if tenths >= 700 {
        "#97ca00"@
    } else if tenths >= 550 {
        "#dfb317"@
    } else if tenths >= 400 {
        "#fe7d37"@
    } else {
        "#e05d44"@
    }
}

/// Selects the severity color for the badge's value segment.
pub fn coverage_color(p: &Percentage) -> (r: &'static str)
    ensures
        r@ == spec_coverage_color(p.tenths as int),
{
    if p.tenths >= 850 {
        "#4c1"
    } else if p.tenths >= 700 {
        "#97ca00"
    } else if p.tenths >= 550 {
        "#dfb317"
    } else if p.tenths >= 400 {
        "#fe7d37"
    } else {
        "#e05d44"
    }
}

} // verus!
