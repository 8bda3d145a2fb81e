//! Bit-field reads and writes on 8- and 16-bit register values.
use vstd::prelude::*;

verus! {

/// The field of `x` selected by `mask` after shifting `x` right by `offset`.
pub open spec fn field8(x: u8, offset: u8, mask: u8) -> u8 {
    (x >> offset) & mask
}

/// `x` with the field at `offset` / `mask` replaced by the low bits of `v`.
pub open spec fn with_field8(x: u8, offset: u8, mask: u8, v: u8) -> u8 {
    (x & !(mask << offset)) | ((v & mask) << offset)
}

/// The field of `x` selected by `mask` after shifting `x` right by `offset`.
pub open spec fn field16(x: u16, offset: u16, mask: u16) -> u16 {
    (x >> offset) & mask
}

/// `x` with the field at `offset` / `mask` replaced by the low bits of `v`.
pub open spec fn with_field16(x: u16, offset: u16, mask: u16, v: u16) -> u16 {
    (x & !(mask << offset)) | ((v & mask) << offset)
}

/// A mask of contiguous low bits that, shifted by `offset`, stays inside a byte.
pub open spec fn is_field8(offset: u8, mask: u8) -> bool {
    &&& offset < 8
    &&& mask & (((mask as u16) + 1) as u8) == 0
    &&& (mask << offset) >> offset == mask
}

/// A mask of contiguous low bits that, shifted by `offset`, stays inside 16 bits.
pub open spec fn is_field16(offset: u16, mask: u16) -> bool {
    &&& offset < 16
    &&& mask & (((mask as u32) + 1) as u16) == 0
    &&& (mask << offset) >> offset == mask
}

/// `1` for `true`, `0` for `false`.
pub open spec fn bool_bit(b: bool) -> u8 {
    if b { 1 } else { 0 }
}

/// Reads the field of `x` at `offset` / `mask`.
pub fn get_field8(x: u8, offset: u8, mask: u8) -> (r: u8)
    requires
        offset < 8,
    ensures
        r == field8(x, offset, mask),
{
    (x >> offset) & mask
}

/// Writes `v` into the field of `x` at `offset` / `mask`.
pub fn put_field8(x: u8, offset: u8, mask: u8, v: u8) -> (r: u8)
    requires
        offset < 8,
    ensures
        r == with_field8(x, offset, mask, v),
{
    (x & !(mask << offset)) | ((v & mask) << offset)
}

/// Reads the field of `x` at `offset` / `mask`.
pub fn get_field16(x: u16, offset: u16, mask: u16) -> (r: u16)
    requires
        offset < 16,
    ensures
        r == field16(x, offset, mask),
{
    (x >> offset) & mask
}

/// Writes `v` into the field of `x` at `offset` / `mask`.
pub fn put_field16(x: u16, offset: u16, mask: u16, v: u16) -> (r: u16)
    requires
        offset < 16,
    ensures
        r == with_field16(x, offset, mask, v),
{
    (x & !(mask << offset)) | ((v & mask) << offset)
}

/// Writing a field and reading it back gives the written value, cut to the
/// field's width; a field that does not overlap it keeps its value.
pub proof fn lemma_field8(x: u8, offset: u8, mask: u8, v: u8, offset2: u8, mask2: u8)
    requires
        is_field8(offset, mask),
        is_field8(offset2, mask2),
        (mask << offset) & (mask2 << offset2) == 0,
    ensures
        field8(with_field8(x, offset, mask, v), offset, mask) == v & mask,
        field8(with_field8(x, offset, mask, v), offset2, mask2) == field8(x, offset2, mask2),
{
    assert(field8(with_field8(x, offset, mask, v), offset, mask) == v & mask) by (bit_vector)
        requires
            offset < 8,
            mask & (((mask as u16) + 1) as u8) == 0,
            (mask << offset) >> offset == mask,
    ;
    assert(field8(with_field8(x, offset, mask, v), offset2, mask2) == field8(x, offset2, mask2))
        by (bit_vector)
        requires
            offset < 8,
            offset2 < 8,
            (mask2 << offset2) >> offset2 == mask2,
            (mask << offset) & (mask2 << offset2) == 0,
    ;
}

/// Writing a 16-bit field and reading it back gives the written value, cut
/// to the field's width; a field that does not overlap it keeps its value.
pub proof fn lemma_field16(x: u16, offset: u16, mask: u16, v: u16, offset2: u16, mask2: u16)
    requires
        is_field16(offset, mask),
        is_field16(offset2, mask2),
        (mask << offset) & (mask2 << offset2) == 0,
    ensures
        field16(with_field16(x, offset, mask, v), offset, mask) == v & mask,
        field16(with_field16(x, offset, mask, v), offset2, mask2) == field16(x, offset2, mask2),
{
    assert(field16(with_field16(x, offset, mask, v), offset, mask) == v & mask) by (bit_vector)
        requires
            offset < 16,
            mask & (((mask as u32) + 1) as u16) == 0,
            (mask << offset) >> offset == mask,
    ;
    assert(field16(with_field16(x, offset, mask, v), offset2, mask2) == field16(x, offset2, mask2))
        by (bit_vector)
        requires
            offset < 16,
            offset2 < 16,
            (mask2 << offset2) >> offset2 == mask2,
            (mask << offset) & (mask2 << offset2) == 0,
    ;
}

} // verus!
