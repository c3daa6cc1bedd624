//! Reading little-endian integers out of an account's bytes.

use vstd::prelude::*;

verus! {

/// 256 to the power `n`.
pub open spec fn pow256(n: nat) -> nat
    decreases n,
{
    if n == 0 {
        1
    } else {
        256 * pow256((n - 1) as nat)
    }
}

/// The unsigned integer that the bytes spell, least significant byte first.
pub open spec fn le_value(bytes: Seq<u8>) -> nat
    decreases bytes.len(),
{
    if bytes.len() == 0 {
        0
    } else {
        bytes[0] as nat + 256 * le_value(bytes.drop_first())
    }
}

/// The signed integer that the bytes spell in two's complement, least
/// significant byte first.
pub open spec fn le_signed(bytes: Seq<u8>) -> int {
    let v = le_value(bytes);
    if 2 * v >= pow256(bytes.len()) {
        v - pow256(bytes.len())
    } else {
        v as int
    }
}

/// The powers of 256 at the widths of the machine integers.
pub proof fn lemma_pow256_landmarks()
    ensures
        pow256(0) == 1,
        pow256(1) == 256,
        pow256(4) == 4294967296,
        pow256(8) == 18446744073709551616,
        pow256(16) == 340282366920938463463374607431768211456,
{
    reveal_with_fuel(pow256, 17);
}

/// Powers of 256 grow with the exponent.
pub proof fn lemma_pow256_monotonic(a: nat, b: nat)
    requires
        a <= b,
    ensures
        1 <= pow256(a) <= pow256(b),
    decreases b,
{
    if b == 0 {
    } else if a < b {
        lemma_pow256_monotonic(a, (b - 1) as nat);
    } else {
        lemma_pow256_monotonic((a - 1) as nat, (b - 1) as nat);
    }
}

/// Reads the `n` bytes from `start` on as an unsigned little-endian integer.
pub fn read_le(data: &[u8], start: usize, n: usize) -> (v: u128)
    requires
        n <= 16,
        start + n <= data@.len(),
    ensures
        v == le_value(data@.subrange(start as int, start + n)),
        v < pow256(n as nat),
{
    let len = data.len();
    let mut acc: u128 = 0;
    let mut i: usize = n;
    while i > 0
        invariant
            0 <= i <= n <= 16,
            start + n <= data@.len() == len,
            acc == le_value(data@.subrange(start + i, start + n)),
            acc < pow256((n - i) as nat),
        decreases i,
    {
        i = i - 1;
        proof {
            let s = data@.subrange(start + i, start + n);
            assert(s.drop_first() =~= data@.subrange(start + i + 1, start + n));
            assert(s[0] == data@[start + i]);
            lemma_pow256_monotonic((n - i) as nat, 16);
            lemma_pow256_landmarks();
            assert(pow256((n - i) as nat) == 256 * pow256((n - i - 1) as nat));
        }
        acc = acc * 256 + data[start + i] as u128;
    }
    acc
}

/// Reads four bytes from `start` on as an unsigned 32-bit integer.
pub fn read_u32_le(data: &[u8], start: usize) -> (v: u32)
    requires
        start + 4 <= data@.len(),
    ensures
        v == le_value(data@.subrange(start as int, start + 4)),
{
    proof {
        lemma_pow256_landmarks();
    }
    let raw = read_le(data, start, 4);
    raw as u32
}

/// Reads eight bytes from `start` on as a signed 64-bit integer.
pub fn read_i64_le(data: &[u8], start: usize) -> (v: i64)
    requires
        start + 8 <= data@.len(),
    ensures
        v == le_signed(data@.subrange(start as int, start + 8)),
{
    proof {
        lemma_pow256_landmarks();
    }
    let raw = read_le(data, start, 8);
    if raw < 9223372036854775808u128 {
        raw as i64
    } else {
        let low = (raw - 9223372036854775808u128) as i64;
        low + i64::MIN
    }
}

/// Reads sixteen bytes from `start` on as a signed 128-bit integer.
pub fn read_i128_le(data: &[u8], start: usize) -> (v: i128)
    requires
        start + 16 <= data@.len(),
    ensures
        v == le_signed(data@.subrange(start as int, start + 16)),
{
    proof {
        lemma_pow256_landmarks();
    }
    let raw = read_le(data, start, 16);
    if raw < 170141183460469231731687303715884105728u128 {
        raw as i128
    } else {
        let low = (raw - 170141183460469231731687303715884105728u128) as i128;
        low + i128::MIN
    }
}

} // verus!
