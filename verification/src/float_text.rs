//! The text that `format!("{:.3}", x)` writes for an `f32` value `x`, read
//! from the value's IEEE-754 bit pattern with integer arithmetic only.

use vstd::prelude::*;
use vstd::arithmetic::power2::{
    lemma2_to64, lemma2_to64_rest, lemma_pow2_adds, lemma_pow2_strictly_increases, lemma_pow2_unfold, pow2,
};
use crate::text::{append, decimal, digit_char, push_decimal};

verus! {

/// Whether the sign bit of the `f32` with bit pattern `bits` is set.
pub open spec fn f32_negative(bits: u32) -> bool {
    bits >= 0x8000_0000
}

/// The biased exponent field of an `f32` bit pattern.
pub open spec fn f32_exponent(bits: u32) -> nat {
    ((bits / 0x80_0000) % 256) as nat
}

/// The fraction field of an `f32` bit pattern.
pub open spec fn f32_fraction(bits: u32) -> nat {
    (bits % 0x80_0000) as nat
}

/// The significand of a finite `f32`: the fraction with the hidden bit of
/// a normal number; the value is `significand * 2^(exponent - 150)` for a
/// normal number and `significand * 2^-149` for a subnormal one.
pub open spec fn f32_significand(bits: u32) -> nat {
    if f32_exponent(bits) == 0 {
        f32_fraction(bits)
    } else {
        f32_fraction(bits) + 0x80_0000
    }
}

/// The number of halvings in the value of a finite `f32` whose exponent
/// lies below 150: `value = significand / 2^k`.
pub open spec fn f32_halvings(bits: u32) -> nat {
    if f32_exponent(bits) == 0 {
        149
    } else {
        (150 - f32_exponent(bits)) as nat
    }
}

/// `n / d` rounded to the nearest integer, ties to the even one.
pub open spec fn round_half_even(n: nat, d: nat) -> nat {
    let q = n / d;
    let r = n % d;
    if 2 * r > d || (2 * r == d && q % 2 == 1) {
        q + 1
    } else {
        q
    }
}

/// The magnitude of a finite `f32` rounded to three decimals: its whole
/// part and its thousandths.
pub open spec fn f32_fixed3(bits: u32) -> (nat, nat) {
    let m = f32_significand(bits);
    if f32_exponent(bits) >= 150 {
        (m * pow2((f32_exponent(bits) - 150) as nat), 0)
    } else {
        let t = round_half_even(m * 1000, pow2(f32_halvings(bits)));
        (t / 1000, t % 1000)
    }
}

/// Three decimal digits of `n` (`n < 1000`), with leading zeros.
pub open spec fn three_digits(n: nat) -> Seq<char> {
    seq![digit_char(n / 100), digit_char((n / 10) % 10), digit_char(n % 10)]
}

/// What `{:.3}` writes for the `f32` with bit pattern `bits`: `NaN`, `inf`
/// or `-inf`; otherwise `-` when the sign bit is set (negative zero too),
/// the whole part, a point and three decimals, the value rounded to the
/// nearest thousandth with ties to even.
pub open spec fn f32_text3(bits: u32) -> Seq<char> {
    if f32_exponent(bits) == 255 {
        if f32_fraction(bits) != 0 {
            "NaN"@
        } else if f32_negative(bits) {
            "-inf"@
        } else {
            "inf"@
        }
    } else {
        let (whole, thousandths) = f32_fixed3(bits);
        (if f32_negative(bits) {
            "-"@
        } else {
            seq![]
        }) + decimal(whole) + "."@ + three_digits(thousandths)
    }
}

/// `m * 2^p` for a significand `m` and `p <= 104`, which fits in a `u128`.
fn scale_up(m: u64, p: u32) -> (v: u128)
    requires
        m < 0x100_0000,
        p <= 104,
    ensures
        v == m * pow2(p as nat),
{
    proof {
        lemma2_to64();
        lemma2_to64_rest();
        lemma_pow2_adds(64, 40);
    }
    let mut v: u128 = m as u128;
    let mut i: u32 = 0;
    while i < p
        invariant
            i <= p <= 104,
            m < 0x100_0000,
            v == m * pow2(i as nat),
            pow2(104) == 0x1_0000_0000_0000_0000 * 0x100_0000_0000,
        decreases p - i,
    {
        proof {
            lemma_pow2_unfold((i + 1) as nat);
            if i + 1 < 104 {
                lemma_pow2_strictly_increases((i + 1) as nat, 104);
            }
            let a = pow2((i + 1) as nat);
            let b = pow2(104);
            assert(m * a <= 0xFF_FFFF * b) by (nonlinear_arith)
                requires
                    m < 0x100_0000,
                    a <= b,
            ;
            assert(v * 2 == m * a) by (nonlinear_arith)
                requires
                    v == m * pow2(i as nat),
                    a == 2 * pow2(i as nat),
            ;
        }
        v = v * 2;
        i = i + 1;
    }
    v
}

/// `2^k` for `k <= 35`.
fn power_of_two(k: u32) -> (d: u64)
    requires
        k <= 35,
    ensures
        d == pow2(k as nat),
        d > 0,
{
    proof {
        lemma2_to64();
        lemma2_to64_rest();
    }
    let mut d: u64 = 1;
    let mut i: u32 = 0;
    while i < k
        invariant
            i <= k <= 35,
            d == pow2(i as nat),
            pow2(35) == 0x8_0000_0000,
        decreases k - i,
    {
        proof {
            lemma_pow2_unfold((i + 1) as nat);
            if i + 1 < 35 {
                lemma_pow2_strictly_increases((i + 1) as nat, 35);
            }
        }
        d = d * 2;
        i = i + 1;
    }
    proof {
        vstd::arithmetic::power2::lemma_pow2_pos(k as nat);
    }
    d
}

/// `m * 1000 / 2^k`, rounded half to even, for a significand `m`.
fn rounded_thousandths(m: u64, k: u32) -> (t: u64)
    requires
        m < 0x100_0000,
        1 <= k <= 149,
    ensures
        t == round_half_even((m * 1000) as nat, pow2(k as nat)),
        t <= 0x100_0000 * 1000,
{
    let n: u64 = m * 1000;
    if k >= 36 {
        proof {
            lemma2_to64_rest();
            if k > 36 {
                lemma_pow2_strictly_increases(36, k as nat);
            }
            let d = pow2(k as nat);
            let nn = n as nat;
            assert(nn / d == 0 && nn % d == nn) by (nonlinear_arith)
                requires
                    nn < 0x100_0000 * 1000,
                    d >= 0x10_0000_0000,
            ;
        }
        return 0;
    }
    let d = power_of_two(k);
    proof {
        lemma2_to64_rest();
        if k < 35 {
            lemma_pow2_strictly_increases(k as nat, 35);
        }
    }
    assert(d <= 0x8_0000_0000);
    let q = n / d;
    let r = n % d;
    proof {
        assert(q <= n) by (nonlinear_arith)
            requires
                q == n / d,
                d > 0,
        ;
    }
    if 2 * r > d || (2 * r == d && q % 2 == 1) {
        q + 1
    } else {
        q
    }
}

fn push_digit(s: &mut String, d: u64)
    requires
        d < 10,
    ensures
        final(s)@ == old(s)@.push(digit_char(d as nat)),
{
    let mut t = String::new();
    push_decimal(&mut t, d);
    assert(t@ == seq![digit_char(d as nat)]);
    append(s, t.as_str());
    assert(old(s)@ + seq![digit_char(d as nat)] =~= old(s)@.push(digit_char(d as nat)));
}

/// Appends the decimal notation of `n`.
fn push_decimal_wide(s: &mut String, n: u128)
    ensures
        final(s)@ == old(s)@ + decimal(n as nat),
    decreases n,
{
    if n < 10 {
        push_digit(s, n as u64);
        assert(old(s)@.push(digit_char(n as nat)) =~= old(s)@ + decimal(n as nat));
    } else {
        push_decimal_wide(s, n / 10);
        push_digit(s, (n % 10) as u64);
        assert(old(s)@ + decimal(n as nat) =~= old(s)@ + decimal((n / 10) as nat) + seq![
            digit_char((n % 10) as nat),
        ]);
    }
}

/// Appends what `{:.3}` writes for the `f32` with bit pattern `bits` (see
/// [`f32_text3`]).
pub fn push_f32_text3(s: &mut String, bits: u32)
    ensures
        final(s)@ == old(s)@ + f32_text3(bits),
{
    let exponent: u32 = (bits / 0x80_0000) % 256;
    let fraction: u32 = bits % 0x80_0000;
    if exponent == 255 {
        if fraction != 0 {
            append(s, "NaN");
        } else if bits >= 0x8000_0000 {
            append(s, "-inf");
        } else {
            append(s, "inf");
        }
        return;
    }
    let ghost start = s@;
    if bits >= 0x8000_0000 {
        append(s, "-");
    } else {
        assert(s@ == start + Seq::<char>::empty());
    }
    let m: u64 = if exponent == 0 {
        fraction as u64
    } else {
        fraction as u64 + 0x80_0000
    };
    let ghost signed = s@;
    if exponent >= 150 {
        let whole = scale_up(m, exponent - 150);
        push_decimal_wide(s, whole);
        append(s, ".");
        push_digit(s, 0);
        push_digit(s, 0);
        push_digit(s, 0);
        assert(s@ =~= start + f32_text3(bits));
    } else {
        let k: u32 = if exponent == 0 {
            149
        } else {
            150 - exponent
        };
        let t = rounded_thousandths(m, k);
        push_decimal(s, t / 1000);
        append(s, ".");
        let f = t % 1000;
        push_digit(s, f / 100);
        push_digit(s, (f / 10) % 10);
        push_digit(s, f % 10);
        assert(s@ =~= start + f32_text3(bits));
    }
}

} // verus!
