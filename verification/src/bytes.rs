//! Little-endian integer fields in byte strings.

use vstd::prelude::*;

verus! {

/// The unsigned value of the eight bytes of `s` starting at `off`, least
/// significant byte first.
pub open spec fn le_u64(s: Seq<u8>, off: int) -> int {
    s[off] as int
        + 0x100 * s[off + 1]
        + 0x1_0000 * s[off + 2]
        + 0x100_0000 * s[off + 3]
        + 0x1_0000_0000 * s[off + 4]
        + 0x100_0000_0000 * s[off + 5]
        + 0x1_0000_0000_0000 * s[off + 6]
        + 0x100_0000_0000_0000 * s[off + 7]
}

/// The eight little-endian bytes of `v`.
pub open spec fn u64_le_bytes(v: u64) -> Seq<u8> {
    seq![
        (v & 0xff) as u8,
        ((v >> 8u64) & 0xff) as u8,
        ((v >> 16u64) & 0xff) as u8,
        ((v >> 24u64) & 0xff) as u8,
        ((v >> 32u64) & 0xff) as u8,
        ((v >> 40u64) & 0xff) as u8,
        ((v >> 48u64) & 0xff) as u8,
        ((v >> 56u64) & 0xff) as u8,
    ]
}

/// Reads the little-endian `u64` at `off`.
pub fn read_u64_le(data: &[u8], off: usize) -> (v: u64)
    requires
        off + 8 <= data@.len(),
    ensures
        v as int == le_u64(data@, off as int),
{
    let b0 = data[off] as u64;
    let b1 = data[off + 1] as u64;
    let b2 = data[off + 2] as u64;
    let b3 = data[off + 3] as u64;
    let b4 = data[off + 4] as u64;
    let b5 = data[off + 5] as u64;
    let b6 = data[off + 6] as u64;
    let b7 = data[off + 7] as u64;
    b0 + 0x100 * b1 + 0x1_0000 * b2 + 0x100_0000 * b3 + 0x1_0000_0000 * b4
        + 0x100_0000_0000 * b5 + 0x1_0000_0000_0000 * b6 + 0x100_0000_0000_0000 * b7
}

/// Encoding a value in eight little-endian bytes and reading it back gives
/// the value.
pub proof fn lemma_u64_le_roundtrip(v: u64)
    ensures
        u64_le_bytes(v).len() == 8,
        le_u64(u64_le_bytes(v), 0) == v as int,
{
    let s = u64_le_bytes(v);
    assert(s[0] == (v & 0xff) as u8);
    assert(s[7] == ((v >> 56u64) & 0xff) as u8);
    let b0 = (v & 0xff) as u8;
    let b1 = ((v >> 8u64) & 0xff) as u8;
    let b2 = ((v >> 16u64) & 0xff) as u8;
    let b3 = ((v >> 24u64) & 0xff) as u8;
    let b4 = ((v >> 32u64) & 0xff) as u8;
    let b5 = ((v >> 40u64) & 0xff) as u8;
    let b6 = ((v >> 48u64) & 0xff) as u8;
    let b7 = ((v >> 56u64) & 0xff) as u8;
    assert(v == (v & 0xff) as u8 as u64 + 0x100 * ((v >> 8u64) & 0xff) as u8 as u64
        + 0x1_0000 * ((v >> 16u64) & 0xff) as u8 as u64
        + 0x100_0000 * ((v >> 24u64) & 0xff) as u8 as u64
        + 0x1_0000_0000 * ((v >> 32u64) & 0xff) as u8 as u64
        + 0x100_0000_0000 * ((v >> 40u64) & 0xff) as u8 as u64
        + 0x1_0000_0000_0000 * ((v >> 48u64) & 0xff) as u8 as u64
        + 0x100_0000_0000_0000 * ((v >> 56u64) & 0xff) as u8 as u64) by (bit_vector);
}

/// The signed value of the eight bytes of `s` starting at `off`, in two's
/// complement, least significant byte first.
pub open spec fn le_i64(s: Seq<u8>, off: int) -> i64 {
    (le_u64(s, off) as u64) as i64
}

/// The eight little-endian two's-complement bytes of `v`.
pub open spec fn i64_le_bytes(v: i64) -> Seq<u8> {
    u64_le_bytes(v as u64)
}

/// Reads the little-endian two's-complement `i64` at `off`.
pub fn read_i64_le(data: &[u8], off: usize) -> (v: i64)
    requires
        off + 8 <= data@.len(),
    ensures
        v == le_i64(data@, off as int),
{
    let u = read_u64_le(data, off);
    u as i64
}

/// Encoding a signed value in eight little-endian bytes and reading it back
/// gives the value.
pub proof fn lemma_i64_le_roundtrip(v: i64)
    ensures
        i64_le_bytes(v).len() == 8,
        le_i64(i64_le_bytes(v), 0) == v,
{
    lemma_u64_le_roundtrip(v as u64);
    assert(((v as u64) as i64) == v) by (bit_vector);
}

/// Reading eight bytes within either part of a concatenation reads them from
/// that part.
pub proof fn lemma_le_u64_concat(a: Seq<u8>, b: Seq<u8>, off: int)
    ensures
        0 <= off && off + 8 <= a.len() ==> le_u64(a + b, off) == le_u64(a, off),
        0 <= off && off + 8 <= b.len() ==> le_u64(a + b, a.len() + off) == le_u64(b, off),
{
    let s = a + b;
    if 0 <= off && off + 8 <= a.len() {
        assert(s[off] == a[off] && s[off + 1] == a[off + 1] && s[off + 2] == a[off + 2]
            && s[off + 3] == a[off + 3] && s[off + 4] == a[off + 4] && s[off + 5] == a[off + 5]
            && s[off + 6] == a[off + 6] && s[off + 7] == a[off + 7]);
    }
    if 0 <= off && off + 8 <= b.len() {
        let o = a.len() + off;
        assert(s[o] == b[off] && s[o + 1] == b[off + 1] && s[o + 2] == b[off + 2]
            && s[o + 3] == b[off + 3] && s[o + 4] == b[off + 4] && s[o + 5] == b[off + 5]
            && s[o + 6] == b[off + 6] && s[o + 7] == b[off + 7]);
    }
}

/// Reading eight bytes as a little-endian value and encoding that value gives
/// the eight bytes back.
pub proof fn lemma_le_u64_reencode(s: Seq<u8>, off: int)
    requires
        0 <= off,
        off + 8 <= s.len(),
    ensures
        0 <= le_u64(s, off) <= u64::MAX,
        u64_le_bytes(le_u64(s, off) as u64) == s.subrange(off, off + 8),
{
    let b0 = s[off];
    let b1 = s[off + 1];
    let b2 = s[off + 2];
    let b3 = s[off + 3];
    let b4 = s[off + 4];
    let b5 = s[off + 5];
    let b6 = s[off + 6];
    let b7 = s[off + 7];
    let v: u64 = ((b0 as u64) + 0x100 * (b1 as u64) + 0x1_0000 * (b2 as u64) + 0x100_0000 * (b3 as u64)
        + 0x1_0000_0000 * (b4 as u64) + 0x100_0000_0000 * (b5 as u64)
        + 0x1_0000_0000_0000 * (b6 as u64) + 0x100_0000_0000_0000 * (b7 as u64)) as u64;
    assert(v as int == le_u64(s, off));
    assert((v & 0xff) as u8 == b0 && ((v >> 8u64) & 0xff) as u8 == b1
        && ((v >> 16u64) & 0xff) as u8 == b2 && ((v >> 24u64) & 0xff) as u8 == b3
        && ((v >> 32u64) & 0xff) as u8 == b4 && ((v >> 40u64) & 0xff) as u8 == b5
        && ((v >> 48u64) & 0xff) as u8 == b6 && ((v >> 56u64) & 0xff) as u8 == b7) by (bit_vector)
        requires
            v == (b0 as u64) + 0x100 * (b1 as u64) + 0x1_0000 * (b2 as u64) + 0x100_0000 * (b3 as u64)
                + 0x1_0000_0000 * (b4 as u64) + 0x100_0000_0000 * (b5 as u64)
                + 0x1_0000_0000_0000 * (b6 as u64) + 0x100_0000_0000_0000 * (b7 as u64),
    ;
    assert(u64_le_bytes(v) =~= s.subrange(off, off + 8));
}

/// Reading eight bytes as a signed little-endian value and encoding that
/// value gives the eight bytes back.
pub proof fn lemma_le_i64_reencode(s: Seq<u8>, off: int)
    requires
        0 <= off,
        off + 8 <= s.len(),
    ensures
        i64_le_bytes(le_i64(s, off)) == s.subrange(off, off + 8),
{
    lemma_le_u64_reencode(s, off);
    let u = le_u64(s, off) as u64;
    assert(((u as i64) as u64) == u) by (bit_vector);
}

} // verus!
