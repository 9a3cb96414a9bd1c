//! Verified parsing of decimal digit strings.
//!
//! Coordinate components and dates arrive as text. Their numeric values are
//! held as integers, so parsing is exact and every arithmetic step can be
//! checked for overflow.

use vstd::prelude::*;

verus! {

/// Whether `c` is an ASCII decimal digit.
pub open spec fn is_digit(c: char) -> bool {
    48 <= c as int <= 57
}

/// The numeric value of a digit character.
pub open spec fn digit_val(c: char) -> int {
    c as int - 48
}

/// Whether every character of `s` is a decimal digit.
pub open spec fn all_digits(s: Seq<char>) -> bool {
    forall|i: int| 0 <= i < s.len() ==> is_digit(#[trigger] s[i])
}

/// The value of a digit string read in base ten.
pub open spec fn digits_val(s: Seq<char>) -> int
    decreases s.len(),
{
    if s.len() == 0 {
        0
    } else {
        digits_val(s.drop_last()) * 10 + digit_val(s.last())
    }
}

/// Ten to the power `n`.
pub open spec fn pow10(n: nat) -> int
    decreases n,
{
    if n == 0 {
        1
    } else {
        10 * pow10((n - 1) as nat)
    }
}

pub proof fn lemma_pow10_positive(n: nat)
    ensures
        pow10(n) >= 1,
    decreases n,
{
    if n > 0 {
        lemma_pow10_positive((n - 1) as nat);
    }
}

pub proof fn lemma_pow10_monotonic(a: nat, b: nat)
    requires
        a <= b,
    ensures
        pow10(a) <= pow10(b),
        pow10(a) >= 1,
    decreases b,
{
    lemma_pow10_positive(a);
    if a < b {
        lemma_pow10_monotonic(a, (b - 1) as nat);
        lemma_pow10_positive((b - 1) as nat);
    }
}

pub proof fn lemma_pow10_add(a: nat, b: nat)
    ensures
        pow10(a) * pow10(b) == pow10(a + b),
    decreases a,
{
    if a == 0 {
    } else {
        lemma_pow10_add((a - 1) as nat, b);
        assert(pow10(a) * pow10(b) == 10 * (pow10((a - 1) as nat) * pow10(b)))
            by (nonlinear_arith)
            requires pow10(a) == 10 * pow10((a - 1) as nat),
        ;
    }
}

/// A digit string of length `n` has a value below ten to the `n`.
pub proof fn lemma_digits_val_bound(s: Seq<char>)
    requires
        all_digits(s),
    ensures
        0 <= digits_val(s) < pow10(s.len()),
    decreases s.len(),
{
    if s.len() > 0 {
        assert(all_digits(s.drop_last()));
        lemma_digits_val_bound(s.drop_last());
        assert(is_digit(s.last()));
        assert(digits_val(s) <= (pow10((s.len() - 1) as nat) - 1) * 10 + 9) by (nonlinear_arith)
            requires
                digits_val(s) == digits_val(s.drop_last()) * 10 + digit_val(s.last()),
                digits_val(s.drop_last()) <= pow10((s.len() - 1) as nat) - 1,
                digit_val(s.last()) <= 9,
        ;
    }
}

/// Reads a whole string of decimal digits as a number.
/// Returns `None` on an empty string or any non-digit character.
pub fn parse_all_digits(s: &str) -> (r: Option<u64>)
    requires
        s@.len() <= 15,
    ensures
        r is Some <==> (s@.len() >= 1 && all_digits(s@)),
        r matches Some(v) ==> v as int == digits_val(s@),
{
    let n = s.unicode_len();
    if n == 0 {
        return None;
    }
    let mut acc: u64 = 0;
    let mut i: usize = 0;
    while i < n
        invariant
            0 <= i <= n,
            n == s@.len(),
            n <= 15,
            all_digits(s@.take(i as int)),
            acc as int == digits_val(s@.take(i as int)),
            (acc as int) < pow10(i as nat),
        decreases n - i,
    {
        let c = s.get_char(i);
        let v = c as u32;
        if v < 48 || v > 57 {
            assert(!is_digit(s@[i as int]));
            return None;
        }
        proof {
            lemma_pow10_monotonic(i as nat, 14);
            reveal_with_fuel(pow10, 16);
            assert(pow10(14) == 100_000_000_000_000);
        }
        acc = acc * 10 + (v - 48) as u64;
        proof {
            assert(s@.take((i + 1) as int).drop_last() =~= s@.take(i as int));
            assert(s@.take((i + 1) as int).last() == s@[i as int]);
        }
        i += 1;
    }
    proof {
        assert(s@.take(n as int) =~= s@);
    }
    Some(acc)
}

/// Ten to the power `n`, executable.
pub fn pow10_u64(n: usize) -> (r: u64)
    requires
        n <= 15,
    ensures
        r as int == pow10(n as nat),
{
    let mut acc: u64 = 1;
    let mut j: usize = 0;
    while j < n
        invariant
            0 <= j <= n,
            n <= 15,
            acc as int == pow10(j as nat),
        decreases n - j,
    {
        proof {
            lemma_pow10_monotonic(j as nat, 14);
            reveal_with_fuel(pow10, 16);
            assert(pow10(14) == 100_000_000_000_000);
        }
        acc = acc * 10;
        j += 1;
    }
    acc
}

} // verus!
