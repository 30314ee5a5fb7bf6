//! Little-endian integers as byte sequences.
use vstd::prelude::*;

verus! {

/// `256` to the power `n`: how many values `n` bytes can hold.
pub open spec fn pow256(n: nat) -> nat
    decreases n,
{
    if n == 0 {
        1
    } else {
        256 * pow256((n - 1) as nat)
    }
}

/// The `n` low bytes of `v`, least significant first.
pub open spec fn le_bytes(v: nat, n: nat) -> Seq<u8>
    decreases n,
{
    if n == 0 {
        Seq::empty()
    } else {
        seq![(v % 256) as u8] + le_bytes(v / 256, (n - 1) as nat)
    }
}

/// The number that `s` spells, least significant byte first.
pub open spec fn le_value(s: Seq<u8>) -> nat
    decreases s.len(),
{
    if s.len() == 0 {
        0
    } else {
        s[0] as nat + 256 * le_value(s.skip(1))
    }
}

/// The two's complement pattern of `v` in `n` bytes.
pub open spec fn twos_complement(v: int, n: nat) -> nat {
    (if v < 0 {
        v + pow256(n)
    } else {
        v
    }) as nat
}

/// The signed number whose two's complement pattern in `n` bytes is `u`.
pub open spec fn signed_value(u: nat, n: nat) -> int {
    if 2 * u >= pow256(n) {
        u - pow256(n)
    } else {
        u as int
    }
}

/// The first powers of 256.
pub proof fn lemma_pow256_values()
    ensures
        pow256(0) == 1,
        pow256(1) == 0x100,
        pow256(2) == 0x1_0000,
        pow256(4) == 0x1_0000_0000,
        pow256(8) == 0x1_0000_0000_0000_0000,
{
    reveal_with_fuel(pow256, 9);
}

/// A byte string has as many bytes as were asked for.
pub proof fn lemma_le_bytes_len(v: nat, n: nat)
    ensures
        le_bytes(v, n).len() == n,
    decreases n,
{
    if n > 0 {
        lemma_le_bytes_len(v / 256, (n - 1) as nat);
    }
}

/// Reading back the bytes of a number that fits gives the number.
pub proof fn law_le_value_of_le_bytes(v: nat, n: nat)
    requires
        v < pow256(n),
    ensures
        le_value(le_bytes(v, n)) == v,
    decreases n,
{
    if n > 0 {
        law_le_value_of_le_bytes(v / 256, (n - 1) as nat);
        assert(le_bytes(v, n).skip(1) =~= le_bytes(v / 256, (n - 1) as nat));
    }
}

/// Two bytes count low byte first.
pub proof fn law_value_of_two_bytes(s: Seq<u8>)
    requires
        s.len() == 2,
    ensures
        le_value(s) == s[0] + 0x100 * s[1],
{
    reveal_with_fuel(le_value, 3);
}

/// Four bytes count low byte first.
pub proof fn law_value_of_four_bytes(s: Seq<u8>)
    requires
        s.len() == 4,
    ensures
        le_value(s) == s[0] + 0x100 * s[1] + 0x1_0000 * s[2] + 0x100_0000 * s[3],
{
    reveal_with_fuel(le_value, 5);
}

/// The low half of a byte string counts as it is, the high half as many times as
/// the low half has values.
pub proof fn law_value_of_halves(low: Seq<u8>, high: Seq<u8>)
    ensures
        le_value(low + high) == le_value(low) + pow256(low.len()) * le_value(high),
    decreases low.len(),
{
    if low.len() == 0 {
        assert(low + high =~= high);
        assert(pow256(0) * le_value(high) == le_value(high)) by {
            assert(pow256(0) == 1);
        }
    } else {
        law_value_of_halves(low.skip(1), high);
        assert((low + high).skip(1) =~= low.skip(1) + high);
        let p = pow256((low.len() - 1) as nat) as int;
        let v = le_value(high) as int;
        assert(256 * (p * v) == (256 * p) * v) by (nonlinear_arith);
        assert(pow256(low.len()) == 256 * p);
        assert(le_value(low + high) == low[0] + 256 * le_value((low + high).skip(1)));
    }
}

/// The sign of a number shows in its pattern: a number below zero has the pattern
/// that is missing to the next power.
pub proof fn law_patterns_of_signed_numbers(v: int, n: nat)
    ensures
        v >= 0 ==> twos_complement(v, n) == v,
        -pow256(n) <= v < 0 ==> twos_complement(v, n) == pow256(n) + v,
{
}

/// Every byte string is the spelling of its own value.
pub proof fn law_le_bytes_of_le_value(s: Seq<u8>)
    ensures
        le_bytes(le_value(s), s.len()) == s,
        le_value(s) < pow256(s.len()),
    decreases s.len(),
{
    if s.len() > 0 {
        law_le_bytes_of_le_value(s.skip(1));
        assert(s =~= seq![s[0]] + s.skip(1));
    }
}

/// Two's complement loses nothing: the pattern of a signed number that fits in
/// `n` bytes reads back as that number.
pub proof fn law_signed_value_of_twos_complement(v: int, n: nat)
    requires
        -pow256(n) <= 2 * v < pow256(n),
    ensures
        twos_complement(v, n) < pow256(n),
        signed_value(twos_complement(v, n), n) == v,
{
}

/// The `u16` in two little-endian bytes.
pub fn u16_from_le(b0: u8, b1: u8) -> (r: u16)
    ensures
        r == le_value(seq![b0, b1]),
{
    proof {
        law_value_of_two_bytes(seq![b0, b1]);
    }
    b0 as u16 + 256 * (b1 as u16)
}

/// The `i16` in two little-endian bytes.
pub fn i16_from_le(b0: u8, b1: u8) -> (r: i16)
    ensures
        r == signed_value(le_value(seq![b0, b1]), 2),
{
    let u: u16 = u16_from_le(b0, b1);
    proof {
        lemma_pow256_values();
    }
    if u >= 0x8000 {
        (u as i32 - 0x1_0000) as i16
    } else {
        u as i16
    }
}

/// The `u32` in four little-endian bytes.
pub fn u32_from_le(b0: u8, b1: u8, b2: u8, b3: u8) -> (r: u32)
    ensures
        r == le_value(seq![b0, b1, b2, b3]),
{
    proof {
        law_value_of_four_bytes(seq![b0, b1, b2, b3]);
    }
    b0 as u32 + 256 * (b1 as u32) + 0x1_0000 * (b2 as u32) + 0x100_0000 * (b3 as u32)
}

/// The `i32` in four little-endian bytes.
pub fn i32_from_le(b0: u8, b1: u8, b2: u8, b3: u8) -> (r: i32)
    ensures
        r == signed_value(le_value(seq![b0, b1, b2, b3]), 4),
{
    let u: u32 = u32_from_le(b0, b1, b2, b3);
    proof {
        lemma_pow256_values();
    }
    if u >= 0x8000_0000 {
        (u as i64 - 0x1_0000_0000) as i32
    } else {
        u as i32
    }
}

/// The `i64` in the first eight bytes of `s`, little-endian.
pub fn i64_from_le(s: &[u8]) -> (r: i64)
    requires
        s.len() >= 8,
    ensures
        r == signed_value(le_value(s@.take(8)), 8),
{
    let mut u: u64 = 0;
    let mut i: usize = 8;
    proof {
        lemma_pow256_values();
        assert(s@.subrange(8, 8) =~= Seq::<u8>::empty());
    }
    while i > 0
        invariant
            s.len() >= 8,
            i <= 8,
            u == le_value(s@.subrange(i as int, 8)),
        decreases i,
    {
        i = i - 1;
        proof {
            let tail = s@.subrange(i as int, 8);
            assert(tail.skip(1) =~= s@.subrange(i + 1, 8));
            law_le_bytes_of_le_value(tail);
            reveal_with_fuel(pow256, 9);
        }
        u = s[i] as u64 + 256 * u;
    }
    proof {
        assert(s@.subrange(0, 8) =~= s@.take(8));
    }
    if u >= 0x8000_0000_0000_0000 {
        (u as i128 - 0x1_0000_0000_0000_0000) as i64
    } else {
        u as i64
    }
}

/// `v` as two little-endian bytes.
pub fn u16_to_le(v: u16) -> (r: [u8; 2])
    ensures
        r@ == le_bytes(v as nat, 2),
{
    proof {
        reveal_with_fuel(le_bytes, 3);
    }
    let r = [(v % 256) as u8, (v / 256) as u8];
    assert(r@ =~= le_bytes(v as nat, 2));
    r
}

/// `v` as two little-endian bytes, in two's complement.
pub fn i16_to_le(v: i16) -> (r: [u8; 2])
    ensures
        r@ == le_bytes(twos_complement(v as int, 2), 2),
{
    proof {
        lemma_pow256_values();
    }
    let u: u16 = if v < 0 {
        (v as i32 + 0x1_0000) as u16
    } else {
        v as u16
    };
    u16_to_le(u)
}

/// `v` as four little-endian bytes.
pub fn u32_to_le(v: u32) -> (r: [u8; 4])
    ensures
        r@ == le_bytes(v as nat, 4),
{
    proof {
        reveal_with_fuel(le_bytes, 5);
    }
    let r = [
        (v % 256) as u8,
        (v / 256 % 256) as u8,
        (v / 256 / 256 % 256) as u8,
        (v / 256 / 256 / 256) as u8,
    ];
    assert(r@ =~= le_bytes(v as nat, 4));
    r
}

/// `v` as four little-endian bytes, in two's complement.
pub fn i32_to_le(v: i32) -> (r: [u8; 4])
    ensures
        r@ == le_bytes(twos_complement(v as int, 4), 4),
{
    proof {
        lemma_pow256_values();
    }
    let u: u32 = if v < 0 {
        (v as i64 + 0x1_0000_0000) as u32
    } else {
        v as u32
    };
    u32_to_le(u)
}

/// `v` as eight little-endian bytes, in two's complement.
pub fn i64_to_le(v: i64) -> (r: [u8; 8])
    ensures
        r@ == le_bytes(twos_complement(v as int, 8), 8),
{
    proof {
        lemma_pow256_values();
        reveal_with_fuel(le_bytes, 9);
    }
    let u: u64 = if v < 0 {
        (v as i128 + 0x1_0000_0000_0000_0000) as u64
    } else {
        v as u64
    };
    let u1: u64 = u / 256;
    let u2: u64 = u1 / 256;
    let u3: u64 = u2 / 256;
    let u4: u64 = u3 / 256;
    let u5: u64 = u4 / 256;
    let u6: u64 = u5 / 256;
    let u7: u64 = u6 / 256;
    let r = [
        (u % 256) as u8,
        (u1 % 256) as u8,
        (u2 % 256) as u8,
        (u3 % 256) as u8,
        (u4 % 256) as u8,
        (u5 % 256) as u8,
        (u6 % 256) as u8,
        (u7 % 256) as u8,
    ];
    assert(r@ =~= le_bytes(u as nat, 8));
    r
}

} // verus!
