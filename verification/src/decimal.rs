//! Rendering of unsigned integers as decimal digit strings, with a spec
//! that pins the exact character sequence down and a bound on its length.

use vstd::prelude::*;
use vstd::string::StringExecFns;

verus! {

/// The character for a single decimal digit.
pub open spec fn digit_char(d: nat) -> char {
    if d == 0 {
        '0'
    } else if d == 1 {
        '1'
    } else if d == 2 {
        '2'
    } else if d == 3 {
        '3'
    } else if d == 4 {
        '4'
    } else if d == 5 {
        '5'
    } else if d == 6 {
        '6'
    } else if d == 7 {
        '7'
    } else if d == 8 {
        '8'
    } else {
        '9'
    }
}

/// The decimal representation of `n`, most significant digit first,
/// with no leading zeros (a single `'0'` for zero).
pub open spec fn decimal_seq(n: nat) -> Seq<char>
    decreases n,
{
    if n < 10 {
        seq![digit_char(n)]
    } else {
        decimal_seq(n / 10) + seq![digit_char(n % 10)]
    }
}

/// Ten to the power `k`.
pub open spec fn pow10(k: nat) -> nat
    decreases k,
{
    if k == 0 {
        1
    } else {
        10 * pow10((k - 1) as nat)
    }
}

/// A number below `pow10(k)` has at most `k` decimal digits.
pub proof fn lemma_decimal_seq_len(n: nat, k: nat)
    requires
        1 <= k,
        n < pow10(k),
    ensures
        1 <= decimal_seq(n).len() <= k,
    decreases k,
{
    if n < 10 {
    } else {
        assert(pow10(1) == 10) by {
            reveal_with_fuel(pow10, 2);
        }
        if k == 1 {
            assert(false);
        }
        assert(n < 10 * pow10((k - 1) as nat));
        assert(n / 10 < pow10((k - 1) as nat)) by {
            vstd::arithmetic::div_mod::lemma_fundamental_div_mod(n as int, 10);
        }
        lemma_decimal_seq_len(n / 10, (k - 1) as nat);
    }
}

/// Every `u64` has at most 20 decimal digits.
pub proof fn lemma_decimal_seq_len_u64(n: nat)
    requires
        n < 0x1_0000_0000_0000_0000,
    ensures
        1 <= decimal_seq(n).len() <= 20,
{
    reveal_with_fuel(pow10, 21);
    assert(pow10(20) == 100_000_000_000_000_000_000);
    lemma_decimal_seq_len(n, 20);
}

/// The one-character string for a single decimal digit.
fn digit_str(d: u64) -> (r: &'static str)
    requires
        d < 10,
    ensures
        r@ == seq![digit_char(d as nat)],
{
    let r: &'static str = if d == 0 {
        proof {
            reveal_strlit("0");
        }
        "0"
    } else if d == 1 {
        proof {
            reveal_strlit("1");
        }
        "1"
    } else if d == 2 {
        proof {
            reveal_strlit("2");
        }
        "2"
    } else if d == 3 {
        proof {
            reveal_strlit("3");
        }
        "3"
    } else if d == 4 {
        proof {
            reveal_strlit("4");
        }
        "4"
    } else if d == 5 {
        proof {
            reveal_strlit("5");
        }
        "5"
    } else if d == 6 {
        proof {
            reveal_strlit("6");
        }
        "6"
    } else if d == 7 {
        proof {
            reveal_strlit("7");
        }
        "7"
    } else if d == 8 {
        proof {
            reveal_strlit("8");
        }
        "8"
    } else {
        proof {
            reveal_strlit("9");
        }
        "9"
    };
    proof {
        assert(r@ =~= seq![digit_char(d as nat)]);
    }
    r
}

/// Renders `n` in decimal, most significant digit first.
pub fn u64_to_decimal(n: u64) -> (r: String)
    ensures
        r@ == decimal_seq(n as nat),
    decreases n,
{
    if n < 10 {
        let r = digit_str(n).to_owned();
        r
    } else {
        let mut r = u64_to_decimal(n / 10);
        r.append(digit_str(n % 10));
        r
    }
}

} // verus!
