//! The percentage value that a badge displays, and its textual rendering.
//!
//! Floating-point numbers cannot flow through verified code, so the
//! library carries what the badge actually shows: the value rounded to
//! tenths of a percent, held in an `i64`, together with a flag recording
//! whether the original value was a whole number.  The caller that starts
//! from a float converts once, outside the library, and everything from
//! there on is exact integer arithmetic.

use vstd::prelude::*;
use vstd::string::StringExecFns;
use crate::decimal::{decimal_seq, lemma_decimal_seq_len_u64, u64_to_decimal};

verus! {

/// A coverage percentage as the badge displays it.
///
/// `tenths` is the value scaled by ten (so `855` stands for `85.5%`);
/// `whole` says whether the underlying value had no fractional part, in
/// which case the badge suppresses the decimal digit.
#[derive(Clone, Copy, Debug)]
pub struct Percentage {
    /// The value in tenths of a percent, already rounded to one decimal.
    pub tenths: i64,
    /// Whether the underlying value was a whole number.
    pub whole: bool,
}

impl Percentage {
    /// A whole-number value carries no stray tenth digit.
    pub open spec fn wf(self) -> bool {
        self.whole ==> self.tenths % 10 == 0
    }

    /// The percentage for a whole number of percent, such as `85` for `85%`.
    pub fn from_whole(units: i64) -> (p: Percentage)
        requires
            -922_337_203_685_477_580 <= units <= 922_337_203_685_477_580,
        ensures
            p.tenths == units * 10,
            p.whole,
            p.wf(),
    {
        Percentage { tenths: units * 10, whole: true }
    }

    /// The percentage for a value with a fractional part, given in tenths
    /// of a percent: `855` stands for `85.5%`.
    pub fn from_tenths(tenths: i64) -> (p: Percentage)
        ensures
            p.tenths == tenths,
            !p.whole,
            p.wf(),
    {
        Percentage { tenths, whole: false }
    }
}

/// The magnitude of the displayed value, in tenths of a percent.
pub open spec fn spec_tenths_magnitude(p: Percentage) -> nat {
    if p.tenths < 0 {
        (-(p.tenths as int)) as nat
    } else {
        p.tenths as nat
    }
}

/// The exact text the badge shows for `p`: the integer part, then — only
/// when the value was not whole — a dot and the tenth digit, then `%`,
/// with a leading minus sign for negative values.
pub open spec fn spec_format_percentage(p: Percentage) -> Seq<char> {
    let mag = spec_tenths_magnitude(p);
    if p.whole {
        if p.tenths < 0 {
            "-"@ + decimal_seq(mag / 10) + "%"@
        } else {
            decimal_seq(mag / 10) + "%"@
        }
    } else {
        if p.tenths < 0 {
            "-"@ + decimal_seq(mag / 10) + "."@ + decimal_seq(mag % 10) + "%"@
        } else {
            decimal_seq(mag / 10) + "."@ + decimal_seq(mag % 10) + "%"@
        }
    }
}

/// The displayed text is short: sign, at most 19 integer digits, the
/// optional dot and tenth digit, and the percent sign.
pub proof fn lemma_format_percentage_len(p: Percentage)
    ensures
        1 <= spec_format_percentage(p).len() <= 24,
{
    reveal_strlit("-");
    reveal_strlit(".");
    reveal_strlit("%");
    let mag = spec_tenths_magnitude(p);
    lemma_decimal_seq_len_u64(mag / 10);
    lemma_decimal_seq_len_u64(mag % 10);
}

/// Formats the percentage for display.
/// Shows the decimal digit only if the value is not a whole number.
pub fn format_percentage(p: &Percentage) -> (r: String)
    ensures
        r@ == spec_format_percentage(*p),
{
    let mag: u64 = if p.tenths < 0 {
        (-(p.tenths as i128)) as u64
    } else {
        p.tenths as u64
    };
    proof {
        assert(mag == spec_tenths_magnitude(*p));
    }
    let units = u64_to_decimal(mag / 10);
    if p.whole {
        if p.tenths < 0 {
            let mut r = "-".to_owned();
            r.append(units.as_str());
            r.append("%");
            r
        } else {
            let mut r = units;
            r.append("%");
            r
        }
    } else {
        let tenth = u64_to_decimal(mag % 10);
        if p.tenths < 0 {
            let mut r = "-".to_owned();
            r.append(units.as_str());
            r.append(".");
            r.append(tenth.as_str());
            r.append("%");
            r
        } else {
            let mut r = units;
            r.append(".");
            r.append(tenth.as_str());
            r.append("%");
            r
        }
    }
}

} // verus!
