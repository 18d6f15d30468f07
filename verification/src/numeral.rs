//! Decimal numerals as ASCII bytes.
//!
//! Both the message payloads and the result rows carry unsigned
//! integers written out in decimal.  This module fixes the canonical
//! form (no sign, no leading zero except for the numeral `0`), renders
//! a `u32` into it, and reads it back.

use vstd::prelude::*;
use vstd::arithmetic::div_mod::{lemma_fundamental_div_mod, lemma_multiply_divide_lt};
use vstd::arithmetic::mul::{lemma_mul_inequality, lemma_mul_strict_inequality};

verus! {

/// An ASCII decimal digit.
pub open spec fn is_dec_digit(b: u8) -> bool {
    0x30 <= b <= 0x39
}

/// Every byte of `s` is an ASCII decimal digit.
pub open spec fn all_dec_digits(s: Seq<u8>) -> bool {
    forall|i: int| 0 <= i < s.len() ==> is_dec_digit(#[trigger] s[i])
}

/// The canonical decimal numeral: at least one digit, and no leading
/// zero unless the numeral is exactly `0`.
pub open spec fn canonical_dec(s: Seq<u8>) -> bool {
    &&& s.len() >= 1
    &&& all_dec_digits(s)
    &&& s.len() > 1 ==> s[0] != 0x30
}

/// The decimal digits of `n`, most significant first.
pub open spec fn dec_digits(n: nat) -> Seq<u8>
    decreases n,
{
    if n < 10 {
        seq![(n + 0x30) as u8]
    } else {
        dec_digits(n / 10).push(((n % 10) + 0x30) as u8)
    }
}

/// The value written by a run of ASCII digits, most significant
/// first.
pub open spec fn dec_value(s: Seq<u8>) -> int
    decreases s.len(),
{
    if s.len() == 0 {
        0
    } else {
        dec_value(s.drop_last()) * 10 + (s.last() - 0x30)
    }
}

/// `10^k`, the exclusive upper bound of `k`-digit values.
pub open spec fn pow10(k: nat) -> int
    decreases k,
{
    if k == 0 {
        1
    } else {
        10 * pow10((k - 1) as nat)
    }
}

/// The rendering of any number is a canonical numeral, and a nonzero
/// number never starts with the zero digit.
pub proof fn lemma_dec_digits_canonical(n: nat)
    ensures
        canonical_dec(dec_digits(n)),
        n >= 1 ==> dec_digits(n)[0] != 0x30,
    decreases n,
{
    if n >= 10 {
        lemma_dec_digits_canonical(n / 10);
        assert(n / 10 >= 1) by (nonlinear_arith)
            requires n >= 10;
    }
}

/// Reading back the rendering of `n` yields `n` again.
pub proof fn lemma_dec_digits_value(n: nat)
    ensures
        dec_value(dec_digits(n)) == n,
    decreases n,
{
    if n < 10 {
        let s = dec_digits(n);
        assert(s.last() == (n + 0x30) as u8);
        assert(s.drop_last() =~= Seq::<u8>::empty());
        assert(dec_value(s.drop_last()) == 0);
    } else {
        lemma_dec_digits_value(n / 10);
        let s = dec_digits(n);
        assert(s.last() == ((n % 10) + 0x30) as u8);
        assert(s.drop_last() =~= dec_digits(n / 10));
        lemma_fundamental_div_mod(n as int, 10);
    }
}

/// A `k`-digit run of digits writes a value below `10^k`.
pub proof fn lemma_dec_value_upper(s: Seq<u8>)
    requires
        all_dec_digits(s),
    ensures
        0 <= dec_value(s) < pow10(s.len()),
    decreases s.len(),
{
    if s.len() > 0 {
        assert(all_dec_digits(s.drop_last()));
        lemma_dec_value_upper(s.drop_last());
        lemma_mul_inequality(dec_value(s.drop_last()), pow10((s.len() - 1) as nat) - 1, 10);
    }
}

/// A numeral that does not start with the zero digit writes a value
/// of at least `10^(k-1)`.
pub proof fn lemma_dec_value_lower(s: Seq<u8>)
    requires
        s.len() >= 1,
        all_dec_digits(s),
        s[0] != 0x30,
    ensures
        dec_value(s) >= pow10((s.len() - 1) as nat),
    decreases s.len(),
{
    if s.len() == 1 {
        assert(s.drop_last() =~= Seq::<u8>::empty());
    } else {
        assert(all_dec_digits(s.drop_last()));
        lemma_dec_value_lower(s.drop_last());
        lemma_mul_inequality(pow10((s.len() - 2) as nat), dec_value(s.drop_last()), 10);
    }
}

/// The rendering of a value below `10^k` has at most `k` digits.
pub proof fn lemma_dec_digits_len(n: nat, k: nat)
    requires
        k >= 1,
        n < pow10(k),
    ensures
        dec_digits(n).len() <= k,
    decreases n,
{
    if n >= 10 {
        if k == 1 {
            assert(pow10(1) == 10) by {
                reveal_with_fuel(pow10, 3);
            }
            assert(false);
        }
        lemma_multiply_divide_lt(n as int, 10, pow10((k - 1) as nat));
        lemma_dec_digits_len(n / 10, (k - 1) as nat);
    }
}

/// A canonical numeral is the rendering of its own value: rendering
/// and reading are mutually inverse on canonical numerals.
pub proof fn lemma_canonical_is_rendering(s: Seq<u8>)
    requires
        canonical_dec(s),
    ensures
        dec_value(s) >= 0,
        dec_digits(dec_value(s) as nat) == s,
    decreases s.len(),
{
    lemma_dec_value_upper(s);
    let d = (s.last() - 0x30) as int;
    if s.len() == 1 {
        assert(s.drop_last() =~= Seq::<u8>::empty());
        assert(dec_value(s.drop_last()) == 0);
        assert(dec_value(s) == d);
        assert(0 <= d < 10);
        assert(dec_digits(d as nat) =~= s);
    } else {
        let s0 = s.drop_last();
        assert(s0.len() >= 1 && all_dec_digits(s0) && s0[0] != 0x30);
        lemma_dec_value_lower(s0);
        lemma_dec_value_upper(s0);
        let v0 = dec_value(s0);
        let v = dec_value(s);
        assert(v == v0 * 10 + d);
        assert(v0 >= 1) by {
            assert(pow10((s0.len() - 1) as nat) >= 1) by {
                lemma_pow10_positive((s0.len() - 1) as nat);
            }
        }
        assert(v >= 10) by (nonlinear_arith)
            requires v == v0 * 10 + d, v0 >= 1, d >= 0;
        assert(v / 10 == v0 && v % 10 == d) by (nonlinear_arith)
            requires v == v0 * 10 + d, 0 <= d < 10;
        lemma_canonical_is_rendering(s0);
        assert(dec_digits((v / 10) as nat) == s0);
        assert(dec_digits(v as nat) == dec_digits((v / 10) as nat).push(((v % 10) + 0x30) as u8));
        assert(dec_digits(v as nat) =~= s);
    }
}

/// `10^k` is positive.
pub proof fn lemma_pow10_positive(k: nat)
    ensures
        pow10(k) >= 1,
    decreases k,
{
    if k > 0 {
        lemma_pow10_positive((k - 1) as nat);
    }
}

/// Renders `n` as its canonical decimal numeral.
pub fn u32_to_dec(n: u32) -> (v: Vec<u8>)
    ensures
        v@ == dec_digits(n as nat),
{
    let mut out: Vec<u8> = Vec::new();
    if n == 0 {
        out.push(0x30);
        assert(out@ =~= dec_digits(0));
        return out;
    }
    let mut m: u32 = n;
    while m > 0
        invariant
            m > 0 ==> dec_digits(n as nat) == dec_digits(m as nat) + out@,
            m == 0 ==> dec_digits(n as nat) == out@,
        decreases m,
    {
        let d: u8 = (m % 10) as u8 + 0x30;
        let ghost prev = m;
        let ghost prev_out = out@;
        out.insert(0, d);
        m = m / 10;
        proof {
            assert(out@ =~= seq![d] + prev_out);
            lemma_fundamental_div_mod(prev as int, 10);
            if prev >= 10 {
                assert(dec_digits(prev as nat) == dec_digits((prev as nat) / 10).push(d));
                assert(dec_digits(prev as nat) + prev_out =~= dec_digits(m as nat) + out@);
            } else {
                assert(dec_digits(prev as nat) =~= seq![d]);
                assert(dec_digits(prev as nat) + prev_out =~= out@);
                assert(m == 0);
            }
        }
    }
    out
}

/// Reads a canonical decimal numeral back into a `u32`.  Returns
/// `None` exactly when the bytes are not the canonical rendering of
/// any `u32`: empty, a leading zero, a non-digit byte, or a value
/// past `u32::MAX`.
pub fn dec_to_u32(s: &[u8]) -> (r: Option<u32>)
    ensures
        r is Some ==> s@ == dec_digits(r->0 as nat),
        r is None ==> forall|v: u32| s@ != dec_digits(v as nat),
{
    let n = s.len();
    proof {
        lemma_pow10_value();
    }
    if n < 1 || n > 10 {
        proof {
            assert forall|v: u32| s@ != dec_digits(v as nat) by {
                if s@ == dec_digits(v as nat) {
                    lemma_dec_digits_canonical(v as nat);
                    lemma_dec_digits_len(v as nat, 10);
                }
            }
        }
        return None;
    }
    if n > 1 && s[0] == 0x30 {
        proof {
            assert forall|v: u32| s@ != dec_digits(v as nat) by {
                if s@ == dec_digits(v as nat) {
                    lemma_dec_digits_canonical(v as nat);
                }
            }
        }
        return None;
    }
    let mut acc: u64 = 0;
    let mut i: usize = 0;
    while i < n
        invariant
            0 <= i <= n == s@.len() <= 10,
            all_dec_digits(s@.subrange(0, i as int)),
            acc == dec_value(s@.subrange(0, i as int)),
            0 <= acc < pow10(i as nat),
            pow10(10) == 10_000_000_000,
        decreases n - i,
    {
        let b = s[i];
        if b < 0x30 || b > 0x39 {
            proof {
                assert forall|v: u32| s@ != dec_digits(v as nat) by {
                    if s@ == dec_digits(v as nat) {
                        lemma_dec_digits_canonical(v as nat);
                    }
                }
            }
            return None;
        }
        proof {
            let pre = s@.subrange(0, i as int);
            let cur = s@.subrange(0, i + 1 as int);
            assert(cur.drop_last() =~= pre);
            assert(cur.last() == s@[i as int]);
            lemma_pow10_mono(i as nat, 9);
            assert(pow10(9) * 10 == pow10(10));
            lemma_mul_inequality(pow10(i as nat) - 1, pow10(9) - 1, 10);
        }
        acc = acc * 10 + ((b - 0x30) as u64);
        i = i + 1;
    }
    assert(s@.subrange(0, n as int) =~= s@);
    if acc > 0xFFFF_FFFF {
        proof {
            assert forall|v: u32| s@ != dec_digits(v as nat) by {
                if s@ == dec_digits(v as nat) {
                    lemma_dec_digits_value(v as nat);
                }
            }
        }
        return None;
    }
    proof {
        assert(canonical_dec(s@));
        lemma_canonical_is_rendering(s@);
    }
    Some(acc as u32)
}

/// The bound below which every value still fits in ten digits.
pub proof fn lemma_pow10_value()
    ensures
        pow10(10) == 10_000_000_000,
{
    reveal_with_fuel(pow10, 11);
}

/// `10^j <= 10^k` when `j <= k`.
pub proof fn lemma_pow10_mono(j: nat, k: nat)
    requires
        j <= k,
    ensures
        pow10(j) <= pow10(k),
    decreases k,
{
    if j < k {
        lemma_pow10_mono(j, (k - 1) as nat);
        lemma_pow10_positive((k - 1) as nat);
    }
}

} // verus!
