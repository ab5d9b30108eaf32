//! Little-endian byte strings of unsigned integers, and the two's-complement
//! correspondence between signed and unsigned 64-bit words.
//!
//! The specifications are arithmetic: a byte string is read as the digits of
//! a number in base 256, least significant digit first.

use vstd::prelude::*;

verus! {

/// `256^n`: the number of byte strings of length `n`.
pub open spec fn radix_pow(n: nat) -> nat
    decreases n,
{
    if n == 0 {
        1
    } else {
        256 * radix_pow((n - 1) as nat)
    }
}

/// The `n` low-order bytes of `value`, least significant first.
pub open spec fn le_bytes(value: nat, n: nat) -> Seq<u8>
    decreases n,
{
    if n == 0 {
        Seq::empty()
    } else {
        seq![(value % 256) as u8] + le_bytes(value / 256, (n - 1) as nat)
    }
}

/// The number whose base-256 digits, least significant first, are `bytes`.
pub open spec fn le_value(bytes: Seq<u8>) -> nat
    decreases bytes.len(),
{
    if bytes.len() == 0 {
        0
    } else {
        bytes[0] as nat + 256 * le_value(bytes.drop_first())
    }
}

/// The unsigned 64-bit word that has the bits of `x` in two's complement.
pub open spec fn to_unsigned64(x: int) -> nat {
    if x < 0 {
        (x + 0x1_0000_0000_0000_0000) as nat
    } else {
        x as nat
    }
}

/// The signed number that the 64-bit word `w` stands for in two's complement.
pub open spec fn to_signed64(w: nat) -> int {
    if w >= 0x8000_0000_0000_0000 {
        w - 0x1_0000_0000_0000_0000
    } else {
        w as int
    }
}

/// `radix_pow` on the lengths that fit a 64-bit word.
pub proof fn lemma_radix_pow_values()
    ensures
        radix_pow(0) == 1,
        radix_pow(1) == 0x100,
        radix_pow(2) == 0x1_0000,
        radix_pow(3) == 0x100_0000,
        radix_pow(4) == 0x1_0000_0000,
        radix_pow(5) == 0x100_0000_0000,
        radix_pow(6) == 0x1_0000_0000_0000,
        radix_pow(7) == 0x100_0000_0000_0000,
        radix_pow(8) == 0x1_0000_0000_0000_0000,
{
    reveal_with_fuel(radix_pow, 9);
}

/// `radix_pow` does not decrease as the length grows.
pub proof fn lemma_radix_pow_monotonic(m: nat, n: nat)
    requires
        m <= n,
    ensures
        radix_pow(m) <= radix_pow(n),
    decreases n,
{
    if m < n {
        lemma_radix_pow_monotonic(m, (n - 1) as nat);
    }
}

/// `le_bytes(value, n)` has exactly `n` bytes.
pub proof fn lemma_le_bytes_len(value: nat, n: nat)
    ensures
        le_bytes(value, n).len() == n,
    decreases n,
{
    if n > 0 {
        lemma_le_bytes_len(value / 256, (n - 1) as nat);
    }
}

/// A byte string of length `n` stands for a number below `256^n`.
pub proof fn lemma_le_value_bound(bytes: Seq<u8>)
    ensures
        le_value(bytes) < radix_pow(bytes.len()),
    decreases bytes.len(),
{
    if bytes.len() > 0 {
        lemma_le_value_bound(bytes.drop_first());
    }
}

/// Reading back the `n` low-order bytes of a number below `256^n` gives the number.
pub proof fn lemma_le_value_of_le_bytes(value: nat, n: nat)
    requires
        value < radix_pow(n),
    ensures
        le_value(le_bytes(value, n)) == value,
    decreases n,
{
    if n > 0 {
        let rest = le_bytes(value / 256, (n - 1) as nat);
        let all = le_bytes(value, n);
        lemma_le_value_of_le_bytes(value / 256, (n - 1) as nat);
        assert(all.drop_first() =~= rest);
    }
}

/// Appends the `n` low-order bytes of `value` to `buffer`, least significant
/// byte first.
pub fn push_le(buffer: &mut Vec<u8>, value: u64, n: usize)
    ensures
        final(buffer)@ == old(buffer)@ + le_bytes(value as nat, n as nat),
{
    let mut rest: u64 = value;
    let mut i: usize = 0;
    while i < n
        invariant
            i <= n,
            buffer@ + le_bytes(rest as nat, (n - i) as nat) == old(buffer)@ + le_bytes(
                value as nat,
                n as nat,
            ),
        decreases n - i,
    {
        let ghost before = buffer@;
        let digit: u8 = (rest % 256) as u8;
        buffer.push(digit);
        proof {
            let tail = le_bytes((rest / 256) as nat, (n - i - 1) as nat);
            assert(le_bytes(rest as nat, (n - i) as nat) == seq![digit] + tail);
            assert(before.push(digit) + tail =~= before + (seq![digit] + tail));
        }
        rest = rest / 256;
        i += 1;
    }
    assert(le_bytes(rest as nat, 0) =~= Seq::<u8>::empty());
    assert(buffer@ + Seq::<u8>::empty() =~= buffer@);
}

/// Reads the number held little-endian in the `n` bytes of `bytes` that
/// begin at `start`.
pub fn read_le(bytes: &[u8], start: usize, n: usize) -> (value: u64)
    requires
        n <= 8,
        start + n <= bytes@.len(),
    ensures
        value == le_value(bytes@.subrange(start as int, start + n)),
{
    let total: usize = bytes.len();
    let mut acc: u64 = 0;
    let mut i: usize = n;
    assert(bytes@.subrange(start + n, start + n) =~= Seq::<u8>::empty());
    while i > 0
        invariant
            i <= n <= 8,
            start + n <= total == bytes@.len(),
            acc == le_value(bytes@.subrange(start + i, start + n)),
        decreases i,
    {
        let ghost upper = bytes@.subrange(start + i, start + n);
        i -= 1;
        let digit: u8 = bytes[start + i];
        proof {
            let window = bytes@.subrange(start + i, start + n);
            assert(window.drop_first() =~= upper);
            assert(window[0] == digit);
            lemma_le_value_bound(window);
            lemma_radix_pow_values();
            lemma_radix_pow_monotonic(window.len(), 8);
        }
        acc = acc * 256 + digit as u64;
    }
    acc
}

/// The bits of a signed 64-bit integer as an unsigned word.
pub fn unsigned64_of(x: i64) -> (w: u64)
    ensures
        w == to_unsigned64(x as int),
{
    let w: u64 = #[verifier::truncate] (x as u64);
    assert(w == (if x < 0 { x + 0x1_0000_0000_0000_0000 } else { x as int })) by (bit_vector)
        requires
            w == x as u64,
    ;
    w
}

/// The signed 64-bit integer with the bits of an unsigned word.
pub fn signed64_of(w: u64) -> (x: i64)
    ensures
        x == to_signed64(w as nat),
{
    let x: i64 = #[verifier::truncate] (w as i64);
    assert(x == (if w >= 0x8000_0000_0000_0000 { w - 0x1_0000_0000_0000_0000 } else { w as int }))
        by (bit_vector)
        requires
            x == w as i64,
    ;
    x
}

} // verus!
