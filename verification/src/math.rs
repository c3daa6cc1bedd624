//! Integer arithmetic behind the decimal type: powers of ten, rounding and
//! truncation of scaled integers.

use vstd::prelude::*;

verus! {

/// Ten to the power `n`.
pub open spec fn pow10(n: nat) -> int
    decreases n,
{
    if n == 0 {
        1
    } else {
        10 * pow10((n - 1) as nat)
    }
}

/// Ten to the power of a machine-sized exponent.
pub open spec fn pow10_u32(n: u32) -> int {
    pow10(n as nat)
}

/// The absolute value of an integer.
pub open spec fn abs_int(m: int) -> int {
    if m < 0 {
        -m
    } else {
        m
    }
}

/// `m / 10^s`, with the fraction cut off (towards zero).
pub open spec fn trunc_toward_zero(m: int, s: nat) -> int {
    if m < 0 {
        -((-m) / pow10(s))
    } else {
        m / pow10(s)
    }
}

/// `m / 10^s`, rounded to the nearest integer; a value exactly half way between
/// two integers goes to the even one.
pub open spec fn round_half_even(m: int, s: nat) -> int {
    let p = pow10(s);
    let a = abs_int(m);
    let q = a / p;
    let r = a % p;
    let up = 2 * r > p || (2 * r == p && q % 2 == 1);
    let n = if up {
        q + 1
    } else {
        q
    };
    if m < 0 {
        -n
    } else {
        n
    }
}

/// A power of ten is positive.
pub proof fn lemma_pow10_positive(n: nat)
    ensures
        pow10(n) >= 1,
    decreases n,
{
    if n > 0 {
        lemma_pow10_positive((n - 1) as nat);
    }
}

/// Powers of ten grow with the exponent.
pub proof fn lemma_pow10_monotonic(a: nat, b: nat)
    requires
        a <= b,
    ensures
        pow10(a) <= pow10(b),
    decreases b,
{
    lemma_pow10_positive(a);
    if a < b {
        lemma_pow10_monotonic(a, (b - 1) as nat);
    }
}

/// The powers of ten at the edges of the 96-bit and 128-bit ranges.
pub proof fn lemma_pow10_landmarks()
    ensures
        pow10(0) == 1,
        pow10(28) == 10000000000000000000000000000,
        pow10(38) == 100000000000000000000000000000000000000,
        pow10(39) == 1000000000000000000000000000000000000000,
{
    reveal_with_fuel(pow10, 40);
}

/// A scaled integer rounds to something other than zero exactly when its
/// magnitude is more than half a unit.
pub proof fn lemma_round_nonzero(m: int, s: nat)
    ensures
        (round_half_even(m, s) != 0) <==> (2 * abs_int(m) > pow10(s)),
{
    lemma_pow10_positive(s);
    let p = pow10(s);
    let a = abs_int(m);
    let q = a / p;
    let r = a % p;
    assert(a == p * q + r && 0 <= r < p) by {
        vstd::arithmetic::div_mod::lemma_fundamental_div_mod(a, p);
        vstd::arithmetic::div_mod::lemma_mod_bound(a, p);
    }
    assert(q >= 0) by {
        vstd::arithmetic::div_mod::lemma_div_pos_is_pos(a, p);
    }
    if q == 0 {
        assert(p * q == 0) by (nonlinear_arith)
            requires
                q == 0,
        ;
        assert(a == r);
    } else {
        assert(p * q >= p) by (nonlinear_arith)
            requires
                q >= 1,
                p >= 1,
        ;
    }
}

/// With scale zero, truncation leaves the integer as it is.
pub proof fn lemma_trunc_scale_zero(m: int)
    ensures
        trunc_toward_zero(m, 0) == m,
{
    reveal_with_fuel(pow10, 2);
    assert(pow10(0) == 1);
}

/// Computes ten to the power `s` for the exponents whose power fits 128 bits.
pub fn pow10_u128(s: u32) -> (p: u128)
    requires
        s <= 38,
    ensures
        p == pow10_u32(s),
{
    let mut p: u128 = 1;
    let mut i: u32 = 0;
    while i < s
        invariant
            i <= s <= 38,
            p == pow10(i as nat),
        decreases s - i,
    {
        proof {
            lemma_pow10_monotonic((i + 1) as nat, 38);
            lemma_pow10_landmarks();
        }
        p = p * 10;
        i = i + 1;
    }
    p
}

/// The magnitude of a 128-bit signed integer.
pub fn magnitude(m: i128) -> (a: u128)
    ensures
        a == abs_int(m as int),
{
    if m >= 0 {
        m as u128
    } else if m == i128::MIN {
        170141183460469231731687303715884105728u128
    } else {
        (-m) as u128
    }
}

/// The magnitude of `m / 10^s` with the fraction cut off, for the scales whose
/// power of ten fits 128 bits.
pub fn truncated_magnitude(m: i128, s: u32) -> (q: u128)
    requires
        s <= 38,
    ensures
        q == abs_int(m as int) / pow10(s as nat),
        trunc_toward_zero(m as int, s as nat) == (if m < 0 {
            -(q as int)
        } else {
            q as int
        }),
{
    proof {
        lemma_pow10_positive(s as nat);
    }
    let a = magnitude(m);
    let p = pow10_u128(s);
    a / p
}

/// Decides whether `m / 10^s` rounds to something other than zero, for every
/// mantissa and every scale.
pub fn rounds_to_nonzero(m: i128, s: u32) -> (b: bool)
    ensures
        b == (round_half_even(m as int, s as nat) != 0),
{
    proof {
        lemma_round_nonzero(m as int, s as nat);
        lemma_pow10_landmarks();
    }
    let a = magnitude(m);
    if s >= 39 {
        proof {
            lemma_pow10_monotonic(39, s as nat);
        }
        false
    } else {
        let p = pow10_u128(s);
        a > p / 2
    }
}

} // verus!
