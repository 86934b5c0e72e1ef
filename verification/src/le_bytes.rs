//! Little-endian fields of a byte buffer.
use vstd::prelude::*;

verus! {

/// The value of `bytes` read as an unsigned little-endian integer:
/// the first byte is the least significant one.
pub open spec fn le_value(bytes: Seq<u8>) -> nat
    decreases bytes.len(),
{
    if bytes.len() == 0 {
        0
    } else {
        (bytes[0] + 256 * le_value(bytes.drop_first())) as nat
    }
}

/// The unsigned little-endian field of `width` bytes that starts at `offset`.
pub open spec fn le_field(data: Seq<u8>, offset: int, width: int) -> nat {
    le_value(data.subrange(offset, offset + width))
}

/// A 16-bit pattern read as a two's-complement signed number.
pub open spec fn signed16(u: nat) -> int {
    if u >= 0x8000 {
        u - 0x10000
    } else {
        u as int
    }
}

proof fn lemma_le_field_2(data: Seq<u8>, o: int)
    requires
        0 <= o,
        o + 2 <= data.len(),
    ensures
        le_field(data, o, 2) == data[o] + 256 * data[o + 1],
{
    let s = data.subrange(o, o + 2);
    reveal_with_fuel(le_value, 3);
    assert(s.drop_first().drop_first().len() == 0);
}

proof fn lemma_le_field_split(data: Seq<u8>, o: int, w1: int, w2: int)
    requires
        0 <= o,
        0 <= w1,
        0 <= w2,
        o + w1 + w2 <= data.len(),
    ensures
        le_field(data, o, w1 + w2) == le_field(data, o, w1) + pow256(w1) * le_field(data, o + w1, w2),
    decreases w1,
{
    if w1 == 0 {
        assert(data.subrange(o, o + 0).len() == 0);
        assert(le_field(data, o, 0) == 0);
        assert(data.subrange(o, o + w2) =~= data.subrange(o + 0, o + 0 + w2));
        assert(pow256(0) == 1);
        assert(le_field(data, o, 0 + w2) == le_field(data, o + 0, w2));
        let c = le_field(data, o + w1, w2);
        assert(pow256(w1) * c == c) by (nonlinear_arith)
            requires pow256(w1) == 1;
        assert(le_field(data, o, w1 + w2) == le_field(data, o, w1) + pow256(w1) * le_field(data, o + w1, w2));
    } else {
        lemma_le_field_split(data, o + 1, w1 - 1, w2);
        let whole = data.subrange(o, o + w1 + w2);
        let first = data.subrange(o, o + w1);
        assert(whole.drop_first() =~= data.subrange(o + 1, o + 1 + (w1 - 1 + w2)));
        assert(first.drop_first() =~= data.subrange(o + 1, o + 1 + (w1 - 1)));
        assert(le_field(data, o, w1 + w2) == data[o] + 256 * le_field(data, o + 1, w1 - 1 + w2));
        assert(le_field(data, o, w1) == data[o] + 256 * le_field(data, o + 1, w1 - 1));
        assert(pow256(w1) == 256 * pow256(w1 - 1));
        let a = le_field(data, o + 1, w1 - 1);
        let b = le_field(data, o + w1, w2);
        let p = pow256(w1 - 1);
        assert(256 * (a + p * b) == 256 * a + (256 * p) * b) by (nonlinear_arith);
        assert(pow256(w1) * b >= 0) by (nonlinear_arith)
            requires pow256(w1) >= 0, b >= 0;
        assert(le_field(data, o + 1, w1 - 1 + w2) == a + p * b);
        assert(le_field(data, o, w1 + w2) == data[o] + 256 * a + (256 * p) * b);
        assert(le_field(data, o, w1 + w2) == le_field(data, o, w1) + pow256(w1) * b);
    }
}

/// 256 to the power `n`.
pub open spec fn pow256(n: int) -> nat
    decreases n,
{
    if n <= 0 {
        1
    } else {
        256 * pow256(n - 1)
    }
}

/// A little-endian field of `width` bytes is below `256^width`.
pub proof fn lemma_le_field_bound(data: Seq<u8>, offset: int, width: int)
    requires
        0 <= offset,
        0 <= width,
        offset + width <= data.len(),
    ensures
        le_field(data, offset, width) < pow256(width),
    decreases width,
{
    if width == 0 {
        assert(data.subrange(offset, offset).len() == 0);
    } else {
        lemma_le_field_bound(data, offset + 1, width - 1);
        let whole = data.subrange(offset, offset + width);
        assert(whole.drop_first() =~= data.subrange(offset + 1, offset + 1 + (width - 1)));
        assert(le_field(data, offset, width) == data[offset] + 256 * le_field(data, offset + 1, width - 1));
        assert(pow256(width) == 256 * pow256(width - 1));
    }
}

/// The unsigned 16-bit little-endian field at `offset`.
pub fn read_u16_le(data: &Vec<u8>, offset: usize) -> (v: u16)
    requires
        offset + 2 <= data.len(),
    ensures
        v == le_field(data@, offset as int, 2),
{
    proof {
        lemma_le_field_2(data@, offset as int);
    }
    data[offset] as u16 + (data[offset + 1] as u16) * 256
}

/// The unsigned 32-bit little-endian field at `offset`.
pub fn read_u32_le(data: &Vec<u8>, offset: usize) -> (v: u32)
    requires
        offset + 4 <= data.len(),
    ensures
        v == le_field(data@, offset as int, 4),
{
    let lo = read_u16_le(data, offset);
    let hi = read_u16_le(data, offset + 2);
    proof {
        lemma_le_field_split(data@, offset as int, 2, 2);
        reveal_with_fuel(pow256, 3);
        assert(pow256(2) == 65536);
        assert(le_field(data@, offset as int, 4) == lo + 65536 * hi);
    }
    lo as u32 + (hi as u32) * 65536
}

/// The unsigned 64-bit little-endian field at `offset`.
pub fn read_u64_le(data: &Vec<u8>, offset: usize) -> (v: u64)
    requires
        offset + 8 <= data.len(),
    ensures
        v == le_field(data@, offset as int, 8),
{
    let lo = read_u32_le(data, offset);
    let hi = read_u32_le(data, offset + 4);
    proof {
        lemma_le_field_split(data@, offset as int, 4, 4);
        reveal_with_fuel(pow256, 5);
        assert(pow256(4) == 0x1_0000_0000);
        assert(le_field(data@, offset as int, 8) == lo + 0x1_0000_0000 * hi);
    }
    lo as u64 + (hi as u64) * 0x1_0000_0000
}

/// The signed (two's-complement) 16-bit little-endian field at `offset`.
pub fn read_i16_le(data: &Vec<u8>, offset: usize) -> (v: i16)
    requires
        offset + 2 <= data.len(),
    ensures
        v == signed16(le_field(data@, offset as int, 2)),
{
    let u = read_u16_le(data, offset);
    if u >= 0x8000 {
        (u as i32 - 0x10000) as i16
    } else {
        u as i16
    }
}

} // verus!
