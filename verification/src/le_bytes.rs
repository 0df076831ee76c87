//! Little-endian integers in byte sequences.

use vstd::arithmetic::div_mod::lemma_fundamental_div_mod_converse;
use vstd::prelude::*;

verus! {

/// The value of the two bytes of `s` at `at`, lowest first.
pub open spec fn val16(s: Seq<u8>, at: int) -> int {
    s[at] as int + 256 * (s[at + 1] as int)
}

/// The value of the four bytes of `s` at `at`, lowest first.
pub open spec fn val32(s: Seq<u8>, at: int) -> int {
    val16(s, at) + 65536 * val16(s, at + 2)
}

/// The value of the eight bytes of `s` at `at`, lowest first.
pub open spec fn val64(s: Seq<u8>, at: int) -> int {
    val32(s, at) + 0x1_0000_0000 * val32(s, at + 4)
}

/// The two bytes of `x`, lowest first.
pub open spec fn le16(x: u16) -> Seq<u8> {
    seq![(x as int % 256) as u8, (x as int / 256) as u8]
}

/// The four bytes of `x`, lowest first.
pub open spec fn le32(x: u32) -> Seq<u8> {
    le16((x as int % 65536) as u16) + le16((x as int / 65536) as u16)
}

/// The eight bytes of `x`, lowest first.
pub open spec fn le64(x: u64) -> Seq<u8> {
    le32((x as int % 0x1_0000_0000) as u32) + le32((x as int / 0x1_0000_0000) as u32)
}

/// Reading back what was written gives the value, wherever in a sequence the
/// bytes stand.
pub proof fn lemma_val_of_le16(x: u16, s: Seq<u8>, at: int)
    requires
        0 <= at,
        at + 2 <= s.len(),
        s.subrange(at, at + 2) == le16(x),
    ensures
        val16(s, at) == x,
{
    let t = s.subrange(at, at + 2);
    assert(t[0] == s[at] && t[1] == s[at + 1]);
}

/// As `lemma_val_of_le16`, for four bytes.
pub proof fn lemma_val_of_le32(x: u32, s: Seq<u8>, at: int)
    requires
        0 <= at,
        at + 4 <= s.len(),
        s.subrange(at, at + 4) == le32(x),
    ensures
        val32(s, at) == x,
{
    let t = s.subrange(at, at + 4);
    assert(t[0] == s[at] && t[1] == s[at + 1] && t[2] == s[at + 2] && t[3] == s[at + 3]);
    let lo = (x as int % 65536) as u16;
    let hi = (x as int / 65536) as u16;
    assert(le32(x)[0] == le16(lo)[0] && le32(x)[1] == le16(lo)[1]);
    assert(le32(x)[2] == le16(hi)[0] && le32(x)[3] == le16(hi)[1]);
}

/// As `lemma_val_of_le16`, for eight bytes.
pub proof fn lemma_val_of_le64(x: u64, s: Seq<u8>, at: int)
    requires
        0 <= at,
        at + 8 <= s.len(),
        s.subrange(at, at + 8) == le64(x),
    ensures
        val64(s, at) == x,
{
    let lo = (x as int % 0x1_0000_0000) as u32;
    let hi = (x as int / 0x1_0000_0000) as u32;
    assert(s.subrange(at, at + 4) =~= le32(lo)) by {
        assert(s.subrange(at, at + 4) =~= s.subrange(at, at + 8).subrange(0, 4));
        assert(le64(x).subrange(0, 4) =~= le32(lo));
    }
    assert(s.subrange(at + 4, at + 8) =~= le32(hi)) by {
        assert(s.subrange(at + 4, at + 8) =~= s.subrange(at, at + 8).subrange(4, 8));
        assert(le64(x).subrange(4, 8) =~= le32(hi));
    }
    lemma_val_of_le32(lo, s, at);
    lemma_val_of_le32(hi, s, at + 4);
}

/// Writing what was read gives the bytes.
pub proof fn lemma_le16_of_val(s: Seq<u8>, at: int)
    requires
        0 <= at,
        at + 2 <= s.len(),
    ensures
        0 <= val16(s, at) < 65536,
        le16(val16(s, at) as u16) == s.subrange(at, at + 2),
{
    assert(le16(val16(s, at) as u16) =~= s.subrange(at, at + 2));
}

/// As `lemma_le16_of_val`, for four bytes.
pub proof fn lemma_le32_of_val(s: Seq<u8>, at: int)
    requires
        0 <= at,
        at + 4 <= s.len(),
    ensures
        0 <= val32(s, at) < 0x1_0000_0000,
        le32(val32(s, at) as u32) == s.subrange(at, at + 4),
{
    lemma_le16_of_val(s, at);
    lemma_le16_of_val(s, at + 2);
    let lo = val16(s, at);
    let hi = val16(s, at + 2);
    lemma_fundamental_div_mod_converse(val32(s, at), 65536, hi, lo);
    assert(le32(val32(s, at) as u32) == le16(lo as u16) + le16(hi as u16));
    assert(s.subrange(at, at + 2) + s.subrange(at + 2, at + 4) =~= s.subrange(at, at + 4));
}

/// As `lemma_le16_of_val`, for eight bytes.
pub proof fn lemma_le64_of_val(s: Seq<u8>, at: int)
    requires
        0 <= at,
        at + 8 <= s.len(),
    ensures
        0 <= val64(s, at) < 0x1_0000_0000_0000_0000,
        le64(val64(s, at) as u64) == s.subrange(at, at + 8),
{
    lemma_le32_of_val(s, at);
    lemma_le32_of_val(s, at + 4);
    let lo = val32(s, at);
    let hi = val32(s, at + 4);
    lemma_fundamental_div_mod_converse(val64(s, at), 0x1_0000_0000, hi, lo);
    assert(le64(val64(s, at) as u64) == le32(lo as u32) + le32(hi as u32));
    assert(s.subrange(at, at + 4) + s.subrange(at + 4, at + 8) =~= s.subrange(at, at + 8));
}

/// Reads a 16-bit value.
pub fn get_u16(data: &[u8], at: usize) -> (x: u16)
    requires
        at + 2 <= data@.len(),
    ensures
        x == val16(data@, at as int),
{
    let b0: u16 = data[at] as u16;
    let b1: u16 = data[at + 1] as u16;
    b0 + 256 * b1
}

/// Reads a 32-bit value.
pub fn get_u32(data: &[u8], at: usize) -> (x: u32)
    requires
        at + 4 <= data@.len(),
    ensures
        x == val32(data@, at as int),
{
    let len = data.len();
    assert(at + 4 <= len);
    let lo: u32 = get_u16(data, at) as u32;
    let hi: u32 = get_u16(data, at + 2) as u32;
    lo + 65536 * hi
}

/// Reads a 64-bit value.
pub fn get_u64(data: &[u8], at: usize) -> (x: u64)
    requires
        at + 8 <= data@.len(),
    ensures
        x == val64(data@, at as int),
{
    let len = data.len();
    assert(at + 8 <= len);
    let lo: u64 = get_u32(data, at) as u64;
    let hi: u64 = get_u32(data, at + 4) as u64;
    lo + 0x1_0000_0000 * hi
}

/// The bytes of a 16-bit value.
pub fn put_u16(x: u16) -> (b: [u8; 2])
    ensures
        b@ == le16(x),
{
    let b = [(x % 256) as u8, (x / 256) as u8];
    assert(b@ =~= le16(x));
    b
}

/// The bytes of a 32-bit value.
pub fn put_u32(x: u32) -> (b: [u8; 4])
    ensures
        b@ == le32(x),
{
    let lo = put_u16((x % 65536) as u16);
    let hi = put_u16((x / 65536) as u16);
    let b = [lo[0], lo[1], hi[0], hi[1]];
    assert(b@ =~= le32(x));
    b
}

/// The bytes of a 64-bit value.
pub fn put_u64(x: u64) -> (b: [u8; 8])
    ensures
        b@ == le64(x),
{
    let lo = put_u32((x % 0x1_0000_0000) as u32);
    let hi = put_u32((x / 0x1_0000_0000) as u32);
    let b = [lo[0], lo[1], lo[2], lo[3], hi[0], hi[1], hi[2], hi[3]];
    assert(b@ =~= le64(x));
    b
}

} // verus!
