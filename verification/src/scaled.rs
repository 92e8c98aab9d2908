//! Fixed-point arithmetic for the linear models.
//!
//! Coefficients fit by regression are real numbers; here they are carried as
//! signed integers scaled by a thousand million (nano units), so a
//! coefficient of one half is `500_000_000`. A linear combination of scaled
//! coefficients and counts is an integer over a known denominator, and
//! rounding it to the nearest whole number is exact integer arithmetic.

use vstd::prelude::*;

verus! {

/// Scale of a coefficient: one unit is a thousand-millionth.
pub const COEF_SCALE: i64 = 1_000_000_000;

/// Largest magnitude a scaled coefficient may have: a thousand in real
/// units. Keeping coefficients within this bound keeps every linear
/// combination inside `i128`.
pub const COEF_LIMIT: i64 = 1_000_000_000_000;

/// Rounds `n / m` to the nearest whole number (halves away from zero) and
/// clamps the result at zero, as the estimators require: a negative raw
/// estimate never surfaces.
pub open spec fn round_clamp(n: int, m: int) -> nat
    recommends
        m > 0,
{
    if n <= 0 {
        0
    } else if 2 * (n % m) >= m {
        (n / m + 1) as nat
    } else {
        (n / m) as nat
    }
}

/// Saturates a count at the largest value a `usize` can hold.
pub open spec fn saturate_usize(x: nat) -> nat {
    if x > usize::MAX {
        usize::MAX as nat
    } else {
        x
    }
}

/// Rounds `n / m` to the nearest whole number, clamps at zero and
/// saturates at `usize::MAX`.
pub fn round_clamp_saturate(n: i128, m: u128) -> (r: usize)
    requires
        0 < m <= 1_000_000_000_000_000,
    ensures
        r == saturate_usize(round_clamp(n as int, m as int)),
{
    if n <= 0 {
        0
    } else {
        let nu = n as u128;
        let q = nu / m;
        let rem = nu % m;
        let rounded: u128 = if 2 * rem >= m {
            q + 1
        } else {
            q
        };
        if rounded > usize::MAX as u128 {
            usize::MAX
        } else {
            rounded as usize
        }
    }
}

/// A product of bounded factors is bounded, which keeps the linear
/// combinations of the estimators inside their machine integers.
pub proof fn lemma_mul_bound(a: int, b: int, aa: int, bb: int)
    by (nonlinear_arith)
    requires
        -aa <= a <= aa,
        0 <= b <= bb,
    ensures
        -(aa * bb) <= a * b <= aa * bb,
{
}

/// Whether `c` is a decimal digit.
pub open spec fn is_digit(c: char) -> bool {
    0x30 <= c as u32 <= 0x39
}

/// The value of the decimal digit `c`.
pub open spec fn digit_val(c: char) -> int
    recommends
        is_digit(c),
{
    c as u32 - 0x30
}

/// Whether `s` is one or more decimal digits and nothing else.
pub open spec fn all_digits(s: Seq<char>) -> bool {
    forall|i: int| 0 <= i < s.len() ==> is_digit(#[trigger] s[i])
}

/// The number that the digit run `s` denotes.
pub open spec fn digits_val(s: Seq<char>) -> int
    recommends
        all_digits(s),
    decreases s.len(),
{
    if s.len() == 0 {
        0
    } else {
        digits_val(s.drop_last()) * 10 + digit_val(s.last())
    }
}

/// A run of digits denotes a non-negative number.
pub proof fn lemma_digits_val_nonneg(s: Seq<char>)
    requires
        all_digits(s),
    ensures
        digits_val(s) >= 0,
    decreases s.len(),
{
    if s.len() > 0 {
        assert(all_digits(s.drop_last()));
        lemma_digits_val_nonneg(s.drop_last());
    }
}

/// Dropping digits from the end of a run never increases its value, so a
/// prefix that is already too large condemns the whole run.
pub proof fn lemma_digits_val_prefix_le(s: Seq<char>, i: int)
    requires
        all_digits(s),
        0 <= i <= s.len(),
    ensures
        digits_val(s.take(i)) <= digits_val(s),
    decreases s.len(),
{
    if i < s.len() {
        assert(all_digits(s.drop_last()));
        assert(s.take(i) =~= s.drop_last().take(i));
        lemma_digits_val_prefix_le(s.drop_last(), i);
        lemma_digits_val_nonneg(s.drop_last());
    } else {
        assert(s.take(i) =~= s);
    }
}

/// A token that parses at all denotes a coefficient within [`COEF_LIMIT`].
pub proof fn lemma_parse_coef_in_range(t: Seq<char>)
    requires
        parse_coef(t) is Some,
    ensures
        -COEF_LIMIT <= parse_coef(t).unwrap() <= COEF_LIMIT,
{
    let neg = t.len() > 0 && t[0] == '-';
    let digits = if neg {
        t.drop_first()
    } else {
        t
    };
    lemma_digits_val_nonneg(digits);
}

/// The scaled coefficient that the token `t` denotes: an optional leading
/// minus sign, then one or more decimal digits, denoting a value of
/// magnitude at most [`COEF_LIMIT`]. Anything else is rejected.
pub open spec fn parse_coef(t: Seq<char>) -> Option<int> {
    let neg = t.len() > 0 && t[0] == '-';
    let digits = if neg {
        t.drop_first()
    } else {
        t
    };
    if digits.len() == 0 || !all_digits(digits) || digits_val(digits) > COEF_LIMIT {
        None
    } else if neg {
        Some(-digits_val(digits))
    } else {
        Some(digits_val(digits))
    }
}

/// Reads the token `t` as a scaled coefficient.
pub fn parse_coef_token(t: &str) -> (r: Option<i64>)
    ensures
        (match r {
            Some(v) => parse_coef(t@) == Some(v as int),
            None => parse_coef(t@) is None,
        }),
{
    let n = t.unicode_len();
    if n == 0 {
        return None;
    }
    let neg = t.get_char(0) == '-';
    let start: usize = if neg {
        1
    } else {
        0
    };
    let ghost digits = if neg {
        t@.drop_first()
    } else {
        t@
    };
    proof {
        assert(digits =~= t@.skip(start as int));
    }
    if start == n {
        return None;
    }
    let mut acc: u64 = 0;
    let mut j: usize = start;
    while j < n
        invariant
            n == t@.len(),
            start <= j <= n,
            start < n,
            start <= 1,
            neg == (t@.len() > 0 && t@[0] == '-'),
            neg == (start == 1),
            digits == t@.skip(start as int),
            all_digits(digits.take(j - start)),
            acc == digits_val(digits.take(j - start)),
            acc <= COEF_LIMIT,
        decreases n - j,
    {
        let c = t.get_char(j);
        let u = c as u32;
        proof {
            assert(digits[j - start] == t@[j as int]);
        }
        if !(0x30 <= u && u <= 0x39) {
            proof {
                assert(!is_digit(digits[j - start]));
                assert(!all_digits(digits));
                assert(digits == (if t@.len() > 0 && t@[0] == '-' {
                    t@.drop_first()
                } else {
                    t@
                }));
                assert(parse_coef(t@) is None);
            }
            return None;
        }
        let d = (u - 0x30) as u64;
        proof {
            assert(digits.take(j - start + 1).drop_last() =~= digits.take(j - start));
            assert(digits.take(j - start + 1).last() == digits[j - start]);
        }
        acc = acc * 10 + d;
        j = j + 1;
        if acc > COEF_LIMIT as u64 {
            proof {
                assert(digits == (if t@.len() > 0 && t@[0] == '-' {
                    t@.drop_first()
                } else {
                    t@
                }));
                if all_digits(digits) {
                    lemma_digits_val_prefix_le(digits, j - start);
                    assert(digits_val(digits) > COEF_LIMIT);
                }
                assert(parse_coef(t@) is None);
            }
            return None;
        }
    }
    proof {
        assert(digits.take(n - start) =~= digits);
    }
    let v = acc as i64;
    if neg {
        Some(-v)
    } else {
        Some(v)
    }
}

} // verus!
