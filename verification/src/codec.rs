//! Little-endian 32-bit encoding and decoding.
//!
//! Both the indirect command records the device reads and the asset-format
//! headers parsed from disk lay out 32-bit words as four little-endian
//! bytes.

use vstd::prelude::*;

verus! {

/// The four little-endian bytes of a 32-bit word.
pub open spec fn spec_u32_le_bytes(x: u32) -> Seq<u8> {
    seq![
        (x as int % 0x100) as u8,
        (x as int / 0x100 % 0x100) as u8,
        (x as int / 0x10000 % 0x100) as u8,
        (x as int / 0x1000000 % 0x100) as u8,
    ]
}

/// The 32-bit word read from four little-endian bytes.
pub open spec fn spec_u32_from_le_bytes(b0: u8, b1: u8, b2: u8, b3: u8) -> u32 {
    (b0 + b1 * 0x100 + b2 * 0x10000 + b3 * 0x1000000) as u32
}

/// Appends the four little-endian bytes of `x` to `out`.
pub fn push_u32_le_bytes(out: &mut Vec<u8>, x: u32)
    ensures
        final(out)@ == old(out)@ + spec_u32_le_bytes(x),
{
    out.push((x % 0x100) as u8);
    out.push((x / 0x100 % 0x100) as u8);
    out.push((x / 0x10000 % 0x100) as u8);
    out.push((x / 0x1000000 % 0x100) as u8);
    proof {
        assert(final(out)@ =~= old(out)@ + spec_u32_le_bytes(x));
    }
}

/// Reads the 32-bit word stored at `offset` in `bytes`, little-endian.
pub fn u32_from_le_bytes(bytes: &[u8], offset: usize) -> (r: u32)
    requires
        offset + 4 <= bytes@.len(),
    ensures
        r == spec_u32_from_le_bytes(
            bytes@[offset as int],
            bytes@[offset as int + 1],
            bytes@[offset as int + 2],
            bytes@[offset as int + 3],
        ),
{
    let len = bytes.len();
    assert(offset + 4 <= len);
    let b0 = *vstd::slice::slice_index_get(bytes, offset) as u32;
    let b1 = *vstd::slice::slice_index_get(bytes, offset + 1) as u32;
    let b2 = *vstd::slice::slice_index_get(bytes, offset + 2) as u32;
    let b3 = *vstd::slice::slice_index_get(bytes, offset + 3) as u32;
    b0 + b1 * 0x100 + b2 * 0x10000 + b3 * 0x1000000
}

/// Reading back the four little-endian bytes of a word yields the word.
pub proof fn lemma_u32_le_round_trip(x: u32)
    ensures
        spec_u32_from_le_bytes(
            spec_u32_le_bytes(x)[0],
            spec_u32_le_bytes(x)[1],
            spec_u32_le_bytes(x)[2],
            spec_u32_le_bytes(x)[3],
        ) == x,
{
    let xi = x as int;
    vstd::arithmetic::div_mod::lemma_fundamental_div_mod(xi, 0x100);
    vstd::arithmetic::div_mod::lemma_fundamental_div_mod(xi / 0x100, 0x100);
    vstd::arithmetic::div_mod::lemma_fundamental_div_mod(xi / 0x100 / 0x100, 0x100);
    vstd::arithmetic::div_mod::lemma_div_denominator(xi, 0x100, 0x100);
    vstd::arithmetic::div_mod::lemma_div_denominator(xi, 0x10000, 0x100);
    vstd::arithmetic::div_mod::lemma_div_denominator(xi / 0x100, 0x100, 0x100);
    vstd::arithmetic::div_mod::lemma_mod_bound(xi, 0x100);
    vstd::arithmetic::div_mod::lemma_mod_bound(xi / 0x100, 0x100);
    vstd::arithmetic::div_mod::lemma_mod_bound(xi / 0x10000, 0x100);
    vstd::arithmetic::div_mod::lemma_div_pos_is_pos(xi, 0x100);
    vstd::arithmetic::div_mod::lemma_div_pos_is_pos(xi / 0x100, 0x100);
    vstd::arithmetic::div_mod::lemma_div_pos_is_pos(xi / 0x10000, 0x100);
    assert(xi / 0x1000000 < 0x100) by {
        vstd::arithmetic::div_mod::lemma_div_is_ordered(xi, 0xFFFFFFFF, 0x1000000);
    }
}

} // verus!
