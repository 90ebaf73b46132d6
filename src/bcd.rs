//! Packed binary-coded decimal: one decimal digit per 4-bit nibble, the least
//! significant digit in the lowest nibble.

use vstd::prelude::*;

verus! {

/// The packed BCD form of `v`: digit `i` of `v` (counted from the least
/// significant) lands in nibble `i`.
pub open spec fn bcd_encode(v: nat) -> nat
    decreases v,
{
    if v == 0 {
        0
    } else {
        (v % 10) + 16 * bcd_encode(v / 10)
    }
}

/// The value `sum(nibble_i * 10^i)` of a packed BCD word.
pub open spec fn bcd_decode(b: nat) -> nat
    decreases b,
{
    if b == 0 {
        0
    } else {
        (b % 16) + 10 * bcd_decode(b / 16)
    }
}

/// `10^n`.
pub open spec fn pow10(n: nat) -> nat
    decreases n,
{
    if n == 0 {
        1
    } else {
        10 * pow10((n - 1) as nat)
    }
}

/// `16^n`.
pub open spec fn pow16(n: nat) -> nat
    decreases n,
{
    if n == 0 {
        1
    } else {
        16 * pow16((n - 1) as nat)
    }
}

/// Decoding the packed form of any number gives the number back.
pub proof fn lemma_bcd_round_trip(v: nat)
    ensures
        bcd_decode(bcd_encode(v)) == v,
    decreases v,
{
    if v != 0 {
        lemma_bcd_round_trip(v / 10);
        let e = bcd_encode(v / 10);
        let d = v % 10;
        assert((d + 16 * e) % 16 == d && (d + 16 * e) / 16 == e) by (nonlinear_arith)
            requires
                d < 10,
        ;
    }
}

/// Powers of sixteen grow with the exponent.
pub proof fn lemma_pow16_mono(a: nat, b: nat)
    requires
        a <= b,
    ensures
        pow16(a) <= pow16(b),
    decreases b,
{
    if a < b {
        lemma_pow16_mono(a, (b - 1) as nat);
    }
}

/// The packed-decimal digit loop of the encoders: one step takes the lowest
/// decimal digit off `num` and puts it into the next nibble.
proof fn lemma_encode_step(value: nat, bcd: nat, place: nat, num: nat, k: nat, width: nat)
    requires
        num > 0,
        k <= width,
        place == pow16(k),
        num < pow10((width - k) as nat),
        bcd_encode(value) == bcd + place * bcd_encode(num),
        bcd < place,
    ensures
        k < width,
        num / 10 < pow10((width - (k + 1)) as nat),
        bcd + (num % 10) * place < place * 16,
        bcd_encode(value) == (bcd + (num % 10) * place) + (place * 16) * bcd_encode(num / 10),
        place * 16 == pow16(k + 1),
{
    if k == width {
        assert(pow10(0) == 1);
    }
    let m = (width - (k + 1)) as nat;
    assert(pow10((width - k) as nat) == 10 * pow10(m));
    assert(num / 10 < pow10(m)) by (nonlinear_arith)
        requires
            num < 10 * pow10(m),
    ;
    let e = bcd_encode(num / 10);
    let d = num % 10;
    assert(bcd_encode(num) == d + 16 * e);
    assert(place * (d + 16 * e) == d * place + (place * 16) * e) by (nonlinear_arith);
    assert(bcd + d * place < place * 16) by (nonlinear_arith)
        requires
            bcd < place,
            d < 10,
    ;
}

/// Packs `value` into BCD, one decimal digit per nibble.
pub fn u32_to_bcd16(value: u32) -> (r: u32)
    requires
        value < 100_000_000,
    ensures
        r == bcd_encode(value as nat),
{
    let mut bcd: u64 = 0;
    let mut place: u64 = 1;
    let mut num: u32 = value;
    let ghost mut k: nat = 0;
    proof {
        reveal_with_fuel(pow10, 9);
        reveal_with_fuel(pow16, 9);
    }
    while num > 0
        invariant
            k <= 8,
            place == pow16(k),
            bcd < place,
            num < pow10((8 - k) as nat),
            bcd_encode(value as nat) == bcd + place * bcd_encode(num as nat),
            pow16(8) == 0x1_0000_0000,
        decreases num,
    {
        proof {
            lemma_encode_step(value as nat, bcd as nat, place as nat, num as nat, k, 8);
            lemma_pow16_mono(k + 1, 8);
        }
        let digit = num % 10;
        bcd = bcd + digit as u64 * place;
        num = num / 10;
        place = place * 16;
        proof {
            k = k + 1;
        }
    }
    proof {
        lemma_pow16_mono(k, 8);
        assert(bcd_encode(num as nat) == 0);
        assert(place * bcd_encode(num as nat) == 0) by (nonlinear_arith)
            requires
                bcd_encode(num as nat) == 0,
        ;
    }
    bcd as u32
}

/// Packs `value` into BCD, one decimal digit per nibble.
pub fn u64_to_bcd16(value: u64) -> (r: u64)
    requires
        value < 10_000_000_000_000_000,
    ensures
        r == bcd_encode(value as nat),
{
    let mut bcd: u128 = 0;
    let mut place: u128 = 1;
    let mut num: u64 = value;
    let ghost mut k: nat = 0;
    proof {
        reveal_with_fuel(pow10, 17);
        reveal_with_fuel(pow16, 17);
    }
    while num > 0
        invariant
            k <= 16,
            place == pow16(k),
            bcd < place,
            num < pow10((16 - k) as nat),
            bcd_encode(value as nat) == bcd + place * bcd_encode(num as nat),
            pow16(16) == 0x1_0000_0000_0000_0000,
        decreases num,
    {
        proof {
            lemma_encode_step(value as nat, bcd as nat, place as nat, num as nat, k, 16);
            lemma_pow16_mono(k + 1, 16);
        }
        let digit = num % 10;
        bcd = bcd + digit as u128 * place;
        num = num / 10;
        place = place * 16;
        proof {
            k = k + 1;
        }
    }
    proof {
        lemma_pow16_mono(k, 16);
        assert(bcd_encode(num as nat) == 0);
        assert(place * bcd_encode(num as nat) == 0) by (nonlinear_arith)
            requires
                bcd_encode(num as nat) == 0,
        ;
    }
    bcd as u64
}

/// Powers of ten grow with the exponent.
pub proof fn lemma_pow10_mono(a: nat, b: nat)
    requires
        a <= b,
    ensures
        pow10(a) <= pow10(b),
    decreases b,
{
    if a < b {
        lemma_pow10_mono(a, (b - 1) as nat);
    }
}

/// One step of the decoding loop: the lowest nibble of `rest` becomes the next
/// decimal digit of the result.
proof fn lemma_decode_step(b: nat, acc: nat, place: nat, rest: nat, k: nat)
    requires
        rest > 0,
        k <= 8,
        place == pow10(k),
        rest < pow16((8 - k) as nat),
        bcd_decode(b) == acc + place * bcd_decode(rest),
        9 * acc <= 15 * (place - 1),
    ensures
        k < 8,
        rest / 16 < pow16((8 - (k + 1)) as nat),
        9 * (acc + (rest % 16) * place) <= 15 * (place * 10 - 1),
        bcd_decode(b) == (acc + (rest % 16) * place) + (place * 10) * bcd_decode(rest / 16),
        place * 10 == pow10(k + 1),
{
    if k == 8 {
        assert(pow16(0) == 1);
    }
    let m = (8 - (k + 1)) as nat;
    assert(pow16((8 - k) as nat) == 16 * pow16(m));
    assert(rest / 16 < pow16(m)) by (nonlinear_arith)
        requires
            rest < 16 * pow16(m),
    ;
    let e = bcd_decode(rest / 16);
    let d = rest % 16;
    assert(bcd_decode(rest) == d + 10 * e);
    assert(place * (d + 10 * e) == d * place + (place * 10) * e) by (nonlinear_arith);
    assert(9 * (acc + d * place) <= 15 * (place * 10 - 1)) by (nonlinear_arith)
        requires
            9 * acc <= 15 * (place - 1),
            d < 16,
    ;
}

/// Reads a packed BCD word back as a number: nibble `i` counts `10^i` times
/// its value.
pub fn bcd16_to_u32(b: u32) -> (r: u32)
    ensures
        r == bcd_decode(b as nat),
{
    let mut acc: u64 = 0;
    let mut place: u64 = 1;
    let mut rest: u32 = b;
    let ghost mut k: nat = 0;
    proof {
        reveal_with_fuel(pow10, 9);
        reveal_with_fuel(pow16, 9);
    }
    while rest > 0
        invariant
            k <= 8,
            place == pow10(k),
            rest < pow16((8 - k) as nat),
            bcd_decode(b as nat) == acc + place * bcd_decode(rest as nat),
            9 * acc <= 15 * (place - 1),
            pow10(8) == 100_000_000,
        decreases rest,
    {
        proof {
            lemma_decode_step(b as nat, acc as nat, place as nat, rest as nat, k);
            lemma_pow10_mono(k + 1, 8);
        }
        let digit = rest % 16;
        acc = acc + digit as u64 * place;
        rest = rest / 16;
        place = place * 10;
        proof {
            k = k + 1;
        }
    }
    proof {
        lemma_pow10_mono(k, 8);
        assert(bcd_decode(rest as nat) == 0);
        assert(place * bcd_decode(rest as nat) == 0) by (nonlinear_arith)
            requires
                bcd_decode(rest as nat) == 0,
        ;
    }
    acc as u32
}

} // verus!
