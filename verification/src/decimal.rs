//! Decimal rendering of unsigned integers, with fixed-width zero padding.
//!
//! Every piece of text the library emits — record identifiers, the
//! two-decimal value column, timestamps and export file names — is built
//! from the decimal digits of an integer.  `dec_rep` is the mathematical
//! definition of that digit string; the executable functions here return
//! strings whose view is exactly `dec_rep` (or its zero-padded forms).

use vstd::prelude::*;
use vstd::string::StringExecFns;

verus! {

/// The character for a single decimal digit.
pub open spec fn dec_digit(d: nat) -> char {
    if d == 0 {
        '0'
    } else if d == 1 {
        '1'
    } else if d == 2 {
        '2'
    } else if d == 3 {
        '3'
    } else if d == 4 {
        '4'
    } else if d == 5 {
        '5'
    } else if d == 6 {
        '6'
    } else if d == 7 {
        '7'
    } else if d == 8 {
        '8'
    } else {
        '9'
    }
}

/// The decimal digit string of `n`, most significant digit first,
/// with no leading zeros (a lone `0` for zero itself).
pub open spec fn dec_rep(n: nat) -> Seq<char>
    decreases n,
{
    if n < 10 {
        seq![dec_digit(n)]
    } else {
        dec_rep(n / 10).push(dec_digit(n % 10))
    }
}

/// `dec_rep(n)` padded with leading zeros to at least two characters.
pub open spec fn pad2(n: nat) -> Seq<char> {
    if n < 10 {
        seq!['0'] + dec_rep(n)
    } else {
        dec_rep(n)
    }
}

/// `dec_rep(n)` padded with leading zeros to at least four characters.
pub open spec fn pad4(n: nat) -> Seq<char> {
    if n < 10 {
        seq!['0', '0', '0'] + dec_rep(n)
    } else if n < 100 {
        seq!['0', '0'] + dec_rep(n)
    } else if n < 1000 {
        seq!['0'] + dec_rep(n)
    } else {
        dec_rep(n)
    }
}

/// How many digits `dec_rep` produces for numbers up to four digits.
pub proof fn lemma_dec_rep_len(n: nat)
    requires
        n < 10000,
    ensures
        dec_rep(n).len() == (if n < 10 {
            1nat
        } else if n < 100 {
            2nat
        } else if n < 1000 {
            3nat
        } else {
            4nat
        }),
    decreases n,
{
    if n >= 10 {
        lemma_dec_rep_len(n / 10);
    }
}

/// Every number has at least one digit.
pub proof fn lemma_dec_rep_nonempty(n: nat)
    ensures
        dec_rep(n).len() >= 1,
{
    if n >= 10 {
        assert(dec_rep(n) == dec_rep(n / 10).push(dec_digit(n % 10)));
    }
}

/// A number below 100 has one or two digits, so `pad2` is exactly two
/// characters wide.
pub proof fn lemma_pad2_len(n: nat)
    requires
        n < 100,
    ensures
        pad2(n).len() == 2,
{
    lemma_dec_rep_len(n);
}

/// A number below 10000 has at most four digits, so `pad4` is exactly four
/// characters wide.
pub proof fn lemma_pad4_len(n: nat)
    requires
        n < 10000,
    ensures
        pad4(n).len() == 4,
{
    lemma_dec_rep_len(n);
}

/// Powers of ten, for bounding digit counts.
pub open spec fn pow10(d: nat) -> nat
    decreases d,
{
    if d == 0 {
        1
    } else {
        10 * pow10((d - 1) as nat)
    }
}

/// Powers of ten are positive.
pub proof fn lemma_pow10_pos(d: nat)
    ensures
        pow10(d) >= 1,
    decreases d,
{
    if d > 0 {
        lemma_pow10_pos((d - 1) as nat);
    }
}

/// A number below `pow10(d)` has at most `d` digits.
pub proof fn lemma_dec_rep_len_bound(n: nat, d: nat)
    requires
        d >= 1,
        n < pow10(d),
    ensures
        dec_rep(n).len() <= d,
    decreases d,
{
    if n >= 10 {
        let p = pow10((d - 1) as nat);
        lemma_pow10_pos((d - 1) as nat);
        assert(pow10(d) == 10 * p);
        assert(n / 10 < p) by (nonlinear_arith)
            requires
                n < 10 * p,
                0 <= n,
                0 < p,
        ;
        lemma_dec_rep_len_bound(n / 10, (d - 1) as nat);
    }
}

/// Any value that fits in 64 bits has at most twenty digits.
pub proof fn lemma_dec_rep_u64_len(n: nat)
    requires
        n <= u64::MAX,
    ensures
        dec_rep(n).len() <= 20,
{
    assert(pow10(20) > u64::MAX) by {
        reveal_with_fuel(pow10, 21);
    }
    lemma_dec_rep_len_bound(n, 20);
}

/// Two-digit padding adds at most one character to the digit string.
pub proof fn lemma_pad2_le(n: nat)
    ensures
        pad2(n).len() <= dec_rep(n).len() + 1,
{
}

/// Four-digit padding adds at most three characters to the digit string.
pub proof fn lemma_pad4_le(n: nat)
    ensures
        pad4(n).len() <= dec_rep(n).len() + 3,
{
}

/// The one-character string for a decimal digit.
fn digit_str(d: u64) -> (r: &'static str)
    requires
        d < 10,
    ensures
        r@ =~= seq![dec_digit(d as nat)],
{
    proof {
        reveal_strlit("0");
        reveal_strlit("1");
        reveal_strlit("2");
        reveal_strlit("3");
        reveal_strlit("4");
        reveal_strlit("5");
        reveal_strlit("6");
        reveal_strlit("7");
        reveal_strlit("8");
        reveal_strlit("9");
    }
    if d == 0 {
        "0"
    } else if d == 1 {
        "1"
    } else if d == 2 {
        "2"
    } else if d == 3 {
        "3"
    } else if d == 4 {
        "4"
    } else if d == 5 {
        "5"
    } else if d == 6 {
        "6"
    } else if d == 7 {
        "7"
    } else if d == 8 {
        "8"
    } else {
        "9"
    }
}

/// The decimal digit string of `n`.
pub fn u64_to_string(n: u64) -> (s: String)
    ensures
        s@ =~= dec_rep(n as nat),
    decreases n,
{
    if n < 10 {
        String::from_str(digit_str(n))
    } else {
        let mut s = u64_to_string(n / 10);
        s.append(digit_str(n % 10));
        s
    }
}

/// The decimal digit string of `n`, zero-padded to at least two characters.
pub fn u64_to_pad2(n: u64) -> (s: String)
    ensures
        s@ =~= pad2(n as nat),
{
    if n < 10 {
        let mut s = String::from_str("0");
        s.append(digit_str(n));
        proof {
            reveal_strlit("0");
        }
        s
    } else {
        u64_to_string(n)
    }
}

/// The decimal digit string of `n`, zero-padded to at least four characters.
pub fn u64_to_pad4(n: u64) -> (s: String)
    ensures
        s@ =~= pad4(n as nat),
{
    if n < 10 {
        let mut s = String::from_str("000");
        s.append(digit_str(n));
        proof {
            reveal_strlit("000");
        }
        s
    } else if n < 100 {
        let mut s = String::from_str("00");
        s.append(u64_to_string(n).as_str());
        proof {
            reveal_strlit("00");
        }
        s
    } else if n < 1000 {
        let mut s = String::from_str("0");
        s.append(u64_to_string(n).as_str());
        proof {
            reveal_strlit("0");
        }
        s
    } else {
        u64_to_string(n)
    }
}

} // verus!
