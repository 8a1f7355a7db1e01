//! Packing booleans into a byte, most significant bit first.

use vstd::prelude::*;

verus! {

/// Bit `i` of `byte`, counting from the most significant bit down.
pub open spec fn flag_bit(byte: u8, i: int) -> bool
    recommends
        0 <= i < 8,
{
    (byte >> ((7 - i) as u8)) & 1 == 1
}

/// The byte whose bits, most significant first, are the eight booleans.
pub open spec fn spec_bools_to_u8(b: Seq<bool>) -> u8
    recommends
        b.len() == 8,
{
    ((if b[0] {
        128int
    } else {
        0int
    }) + (if b[1] {
        64int
    } else {
        0int
    }) + (if b[2] {
        32int
    } else {
        0int
    }) + (if b[3] {
        16int
    } else {
        0int
    }) + (if b[4] {
        8int
    } else {
        0int
    }) + (if b[5] {
        4int
    } else {
        0int
    }) + (if b[6] {
        2int
    } else {
        0int
    }) + (if b[7] {
        1int
    } else {
        0int
    })) as u8
}

/// Packs eight booleans into one byte, the first boolean in the most
/// significant bit.
pub fn bools_to_u8(bools: [bool; 8]) -> (r: u8)
    ensures
        r == spec_bools_to_u8(bools@),
        forall|i: int| 0 <= i < 8 ==> flag_bit(r, i) == bools@[i],
{
    let r: u8 = ((bools[0] as u8) << 7u8) | ((bools[1] as u8) << 6u8) | ((bools[2] as u8) << 5u8)
        | ((bools[3] as u8) << 4u8) | ((bools[4] as u8) << 3u8) | ((bools[5] as u8) << 2u8) | ((
    bools[6] as u8) << 1u8) | (bools[7] as u8);
    proof {
        lemma_bools_to_u8_bits(bools@, r);
    }
    r
}

/// The booleans encoded in a byte, most significant bit first.
pub open spec fn spec_u8_to_bools(byte: u8) -> Seq<bool> {
    Seq::new(8, |i: int| flag_bit(byte, i))
}

/// Unpacks a byte into eight booleans, the most significant bit first.
pub fn u8_to_bools(byte: u8) -> (r: [bool; 8])
    ensures
        r@ =~= spec_u8_to_bools(byte),
{
    let r: [bool; 8] = [
        byte & 128 != 0,
        byte & 64 != 0,
        byte & 32 != 0,
        byte & 16 != 0,
        byte & 8 != 0,
        byte & 4 != 0,
        byte & 2 != 0,
        byte & 1 != 0,
    ];
    proof {
        assert forall|i: int| 0 <= i < 8 implies r@[i] == flag_bit(byte, i) by {
            lemma_mask_is_bit(byte);
        }
    }
    r
}

/// Each mask test reads exactly one bit of the byte.
proof fn lemma_mask_is_bit(byte: u8)
    ensures
        (byte & 128 != 0) == flag_bit(byte, 0),
        (byte & 64 != 0) == flag_bit(byte, 1),
        (byte & 32 != 0) == flag_bit(byte, 2),
        (byte & 16 != 0) == flag_bit(byte, 3),
        (byte & 8 != 0) == flag_bit(byte, 4),
        (byte & 4 != 0) == flag_bit(byte, 5),
        (byte & 2 != 0) == flag_bit(byte, 6),
        (byte & 1 != 0) == flag_bit(byte, 7),
{
    assert((byte & 128 != 0) == ((byte >> 7u8) & 1 == 1)) by (bit_vector);
    assert((byte & 64 != 0) == ((byte >> 6u8) & 1 == 1)) by (bit_vector);
    assert((byte & 32 != 0) == ((byte >> 5u8) & 1 == 1)) by (bit_vector);
    assert((byte & 16 != 0) == ((byte >> 4u8) & 1 == 1)) by (bit_vector);
    assert((byte & 8 != 0) == ((byte >> 3u8) & 1 == 1)) by (bit_vector);
    assert((byte & 4 != 0) == ((byte >> 2u8) & 1 == 1)) by (bit_vector);
    assert((byte & 2 != 0) == ((byte >> 1u8) & 1 == 1)) by (bit_vector);
    assert((byte & 1 != 0) == ((byte >> 0u8) & 1 == 1)) by (bit_vector);
}

/// The shifted-or packing of eight booleans equals their weighted sum, and
/// its bits read back as the booleans themselves.
proof fn lemma_bools_to_u8_bits(b: Seq<bool>, r: u8)
    requires
        b.len() == 8,
        r == ((if b[0] {
            1u8
        } else {
            0u8
        }) << 7u8) | ((if b[1] {
            1u8
        } else {
            0u8
        }) << 6u8) | ((if b[2] {
            1u8
        } else {
            0u8
        }) << 5u8) | ((if b[3] {
            1u8
        } else {
            0u8
        }) << 4u8) | ((if b[4] {
            1u8
        } else {
            0u8
        }) << 3u8) | ((if b[5] {
            1u8
        } else {
            0u8
        }) << 2u8) | ((if b[6] {
            1u8
        } else {
            0u8
        }) << 1u8) | (if b[7] {
            1u8
        } else {
            0u8
        }),
    ensures
        r == spec_bools_to_u8(b),
        forall|i: int| 0 <= i < 8 ==> flag_bit(r, i) == b[i],
{
    let x0: u8 = if b[0] { 1 } else { 0 };
    let x1: u8 = if b[1] { 1 } else { 0 };
    let x2: u8 = if b[2] { 1 } else { 0 };
    let x3: u8 = if b[3] { 1 } else { 0 };
    let x4: u8 = if b[4] { 1 } else { 0 };
    let x5: u8 = if b[5] { 1 } else { 0 };
    let x6: u8 = if b[6] { 1 } else { 0 };
    let x7: u8 = if b[7] { 1 } else { 0 };
    assert((x0 << 7u8) | (x1 << 6u8) | (x2 << 5u8) | (x3 << 4u8) | (x4 << 3u8) | (x5 << 2u8) | (x6
        << 1u8) | x7 == (128 * x0 + 64 * x1 + 32 * x2 + 16 * x3 + 8 * x4 + 4 * x5 + 2 * x6
        + x7) as u8) by (bit_vector)
        requires
            x0 <= 1 && x1 <= 1 && x2 <= 1 && x3 <= 1 && x4 <= 1 && x5 <= 1 && x6 <= 1 && x7 <= 1,
    ;
    let v: u8 = (128 * x0 + 64 * x1 + 32 * x2 + 16 * x3 + 8 * x4 + 4 * x5 + 2 * x6 + x7) as u8;
    assert(((v >> 7u8) & 1 == 1) == (x0 == 1) && ((v >> 6u8) & 1 == 1) == (x1 == 1) && ((v >> 5u8)
        & 1 == 1) == (x2 == 1) && ((v >> 4u8) & 1 == 1) == (x3 == 1) && ((v >> 3u8) & 1 == 1) == (
    x4 == 1) && ((v >> 2u8) & 1 == 1) == (x5 == 1) && ((v >> 1u8) & 1 == 1) == (x6 == 1) && ((v
        >> 0u8) & 1 == 1) == (x7 == 1)) by (bit_vector)
        requires
            v == (128 * x0 + 64 * x1 + 32 * x2 + 16 * x3 + 8 * x4 + 4 * x5 + 2 * x6 + x7) as u8
                && x0 <= 1 && x1 <= 1 && x2 <= 1 && x3 <= 1 && x4 <= 1 && x5 <= 1 && x6 <= 1 && x7
                <= 1,
    ;
    assert forall|i: int| 0 <= i < 8 implies flag_bit(r, i) == b[i] by {
        if i == 0 {
        } else if i == 1 {
        } else if i == 2 {
        } else if i == 3 {
        } else if i == 4 {
        } else if i == 5 {
        } else if i == 6 {
        } else {
            assert(i == 7);
        }
    }
}

/// Packing eight booleans and unpacking the byte gives the booleans back.
pub proof fn lemma_bools_byte_round_trip(b: Seq<bool>)
    requires
        b.len() == 8,
    ensures
        spec_u8_to_bools(spec_bools_to_u8(b)) =~= b,
{
    let x0: u8 = if b[0] { 1 } else { 0 };
    let x1: u8 = if b[1] { 1 } else { 0 };
    let x2: u8 = if b[2] { 1 } else { 0 };
    let x3: u8 = if b[3] { 1 } else { 0 };
    let x4: u8 = if b[4] { 1 } else { 0 };
    let x5: u8 = if b[5] { 1 } else { 0 };
    let x6: u8 = if b[6] { 1 } else { 0 };
    let x7: u8 = if b[7] { 1 } else { 0 };
    let v: u8 = (128 * x0 + 64 * x1 + 32 * x2 + 16 * x3 + 8 * x4 + 4 * x5 + 2 * x6 + x7) as u8;
    assert(((v >> 7u8) & 1 == 1) == (x0 == 1) && ((v >> 6u8) & 1 == 1) == (x1 == 1) && ((v >> 5u8)
        & 1 == 1) == (x2 == 1) && ((v >> 4u8) & 1 == 1) == (x3 == 1) && ((v >> 3u8) & 1 == 1) == (
    x4 == 1) && ((v >> 2u8) & 1 == 1) == (x5 == 1) && ((v >> 1u8) & 1 == 1) == (x6 == 1) && ((v
        >> 0u8) & 1 == 1) == (x7 == 1)) by (bit_vector)
        requires
            v == (128 * x0 + 64 * x1 + 32 * x2 + 16 * x3 + 8 * x4 + 4 * x5 + 2 * x6 + x7) as u8
                && x0 <= 1 && x1 <= 1 && x2 <= 1 && x3 <= 1 && x4 <= 1 && x5 <= 1 && x6 <= 1 && x7
                <= 1,
    ;
    assert forall|i: int| 0 <= i < 8 implies spec_u8_to_bools(spec_bools_to_u8(b))[i] == b[i] by {
        if i == 0 {
        } else if i == 1 {
        } else if i == 2 {
        } else if i == 3 {
        } else if i == 4 {
        } else if i == 5 {
        } else if i == 6 {
        } else {
            assert(i == 7);
        }
    }
}

} // verus!
