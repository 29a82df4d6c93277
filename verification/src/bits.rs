//! Word-level helpers shared by the interpreter and the bus: sign tests,
//! rotations, arithmetic shifts, sign extension and bit counting.
use vstd::prelude::*;

verus! {

/// Bit 31 of `x`: the sign of the word read as a two's complement number.
pub open spec fn sign32(x: u32) -> bool {
    x >= 0x8000_0000
}

/// Bit `i` of `x`.
pub open spec fn bit(x: u32, i: u32) -> bool {
    (x >> i) & 1 == 1
}

/// `x` rotated right by `n` places, `n` taken modulo 32.
pub open spec fn rotr32(x: u32, n: u32) -> u32 {
    let k = n % 32;
    if k == 0 {
        x
    } else {
        (x >> k) | (x << ((32 - k) as u32))
    }
}

/// `x` shifted right by `n < 32` places with the sign bit replicated
/// into the vacated positions.
pub open spec fn asr32(x: u32, n: u32) -> u32 {
    if sign32(x) {
        (x >> n) | !(0xffff_ffffu32 >> n)
    } else {
        x >> n
    }
}

/// The low 8 bits of `x` read as a signed byte and widened to 32 bits.
pub open spec fn sign_extend8(x: u32) -> u32 {
    let b = x % 0x100;
    if b >= 0x80 {
        (b + 0xffff_ff00) as u32
    } else {
        b
    }
}

/// The low 16 bits of `x` read as a signed halfword and widened to 32 bits.
pub open spec fn sign_extend16(x: u32) -> u32 {
    let h = x % 0x1_0000;
    if h >= 0x8000 {
        (h + 0xffff_0000) as u32
    } else {
        h
    }
}

/// How many of the bits `0..n` of `x` are set.
pub open spec fn bits_set_below(x: u32, n: nat) -> nat
    decreases n,
{
    if n == 0 {
        0
    } else {
        bits_set_below(x, (n - 1) as nat) + if bit(x, (n - 1) as u32) {
            1nat
        } else {
            0nat
        }
    }
}

/// The number of set bits of `x`.
pub open spec fn popcount(x: u32) -> nat {
    bits_set_below(x, 32)
}

/// At most `n` of the bits below `n` are set.
pub proof fn lemma_bits_set_below_bound(x: u32, n: nat)
    ensures
        bits_set_below(x, n) <= n,
    decreases n,
{
    if n > 0 {
        lemma_bits_set_below_bound(x, (n - 1) as nat);
    }
}

/// The sign of a word is its bit 31.
pub proof fn law_sign_is_bit_31(x: u32)
    ensures
        sign32(x) == bit(x, 31),
{
    assert(x >= 0x8000_0000u32 <==> (x >> 31u32) & 1 == 1) by (bit_vector);
}

/// A rotation to the right by `n` places moves each bit `n` places down,
/// and the `n` lowest bits to the top.
pub proof fn law_rotation_moves_bits(x: u32, n: u32, i: u32)
    requires
        i < 32,
    ensures
        bit(rotr32(x, n), i) == bit(x, ((i + n % 32) % 32) as u32),
{
    let k = n % 32;
    let j = ((i + k) % 32) as u32;
    if k == 0 {
        assert(j == i);
    } else {
        let y = (x >> k) | (x << ((32 - k) as u32));
        let up = (32 - k) as u32;
        assert(((y >> i) & 1 == 1) == ((x >> j) & 1 == 1)) by (bit_vector)
            requires
                0 < k < 32,
                i < 32,
                up == 32 - k,
                j == (i + k) % 32,
                y == (x >> k) | (x << up),
        ;
    }
}

/// A shift to the right that keeps the sign moves each bit `n` places
/// down and fills the top with copies of bit 31.
pub proof fn law_arithmetic_shift_moves_bits(x: u32, n: u32, i: u32)
    requires
        n < 32,
        i < 32,
    ensures
        bit(asr32(x, n), i) == bit(x, if i + n < 32 { (i + n) as u32 } else { 31 }),
{
    let j = if i + n < 32 { (i + n) as u32 } else { 31u32 };
    let y = asr32(x, n);
    assert(((y >> i) & 1 == 1) == ((x >> j) & 1 == 1)) by (bit_vector)
        requires
            n < 32,
            i < 32,
            j == (if i + n < 32 { (i + n) as u32 } else { 31u32 }),
            y == (if x >= 0x8000_0000u32 { (x >> n) | !(0xffff_ffffu32 >> n) } else { x >> n }),
    ;
}

/// Sign extension keeps the low bits and fills the bits above them with
/// copies of the top bit of the part kept: bit 7 of a byte, bit 15 of a
/// halfword.
pub proof fn law_sign_extension_copies_the_top_bit(x: u32, i: u32)
    requires
        i < 32,
    ensures
        bit(sign_extend8(x), i) == bit(x, if i < 7 { i } else { 7 }),
        bit(sign_extend16(x), i) == bit(x, if i < 15 { i } else { 15 }),
{
    let b = sign_extend8(x);
    let h = sign_extend16(x);
    let j = if i < 7 { i } else { 7u32 };
    let k = if i < 15 { i } else { 15u32 };
    assert(((b >> i) & 1 == 1) == ((x >> j) & 1 == 1)) by (bit_vector)
        requires
            i < 32,
            j == (if i < 7 { i } else { 7u32 }),
            b == (if x % 0x100 >= 0x80 { (x % 0x100 + 0xffff_ff00) as u32 } else { x % 0x100 }),
    ;
    assert(((h >> i) & 1 == 1) == ((x >> k) & 1 == 1)) by (bit_vector)
        requires
            i < 32,
            k == (if i < 15 { i } else { 15u32 }),
            h == (if x % 0x1_0000 >= 0x8000 {
                (x % 0x1_0000 + 0xffff_0000) as u32
            } else {
                x % 0x1_0000
            }),
    ;
}

/// True when bit 31 of `x` is set.
pub fn is_negative(x: u32) -> (r: bool)
    ensures
        r == sign32(x),
{
    x >= 0x8000_0000
}

/// True when bit `i` of `x` is set.
pub fn test_bit(x: u32, i: u32) -> (r: bool)
    requires
        i < 32,
    ensures
        r == bit(x, i),
{
    (x >> i) & 1 == 1
}

/// Rotate `x` right by `n` places, `n` taken modulo 32.
pub fn rotate_right(x: u32, n: u32) -> (r: u32)
    ensures
        r == rotr32(x, n),
{
    let k: u32 = n % 32;
    if k == 0 {
        x
    } else {
        (x >> k) | (x << (32 - k))
    }
}

/// Shift `x` right by `n` places, replicating the sign bit.
pub fn arithmetic_shift_right(x: u32, n: u32) -> (r: u32)
    requires
        n < 32,
    ensures
        r == asr32(x, n),
{
    if x >= 0x8000_0000 {
        (x >> n) | !(0xffff_ffffu32 >> n)
    } else {
        x >> n
    }
}

/// Widen the signed byte in the low 8 bits of `x`.
pub fn extend_byte(x: u32) -> (r: u32)
    ensures
        r == sign_extend8(x),
{
    let b: u32 = x % 0x100;
    if b >= 0x80 {
        b + 0xffff_ff00
    } else {
        b
    }
}

/// Widen the signed halfword in the low 16 bits of `x`.
pub fn extend_halfword(x: u32) -> (r: u32)
    ensures
        r == sign_extend16(x),
{
    let h: u32 = x % 0x1_0000;
    if h >= 0x8000 {
        h + 0xffff_0000
    } else {
        h
    }
}

/// Count the set bits of `x` below bit `n`.
pub fn count_below(x: u32, n: u32) -> (r: u32)
    requires
        n <= 32,
    ensures
        r == bits_set_below(x, n as nat),
        r <= n,
{
    let mut count: u32 = 0;
    let mut i: u32 = 0;
    while i < n
        invariant
            i <= n <= 32,
            count == bits_set_below(x, i as nat),
            count <= i,
        decreases n - i,
    {
        if test_bit(x, i) {
            count = count + 1;
        }
        i = i + 1;
    }
    count
}

/// Count the set bits of `x`.
pub fn count_ones(x: u32) -> (r: u32)
    ensures
        r == popcount(x),
        r <= 32,
{
    count_below(x, 32)
}

} // verus!
