//! Words and bytes: big- and little-endian joins and splits, slice copies.

use vstd::prelude::*;

verus! {

/// The 16-bit word with the given high and low byte.
pub open spec fn word(high: u8, low: u8) -> u16 {
    (high * 256 + low) as u16
}

/// The 32-bit word with the given bytes, the most significant one first.
pub open spec fn dword(b3: u8, b2: u8, b1: u8, b0: u8) -> u32 {
    (b3 * 0x100_0000 + b2 * 0x1_0000 + b1 * 0x100 + b0) as u32
}

pub open spec fn high_byte(w: u16) -> u8 {
    (w / 256) as u8
}

pub open spec fn low_byte(w: u16) -> u8 {
    (w % 256) as u8
}

/// The big-endian bytes of a 16-bit word.
pub open spec fn be16(w: u16) -> Seq<u8> {
    seq![high_byte(w), low_byte(w)]
}

/// The little-endian bytes of a 16-bit word.
pub open spec fn le16(w: u16) -> Seq<u8> {
    seq![low_byte(w), high_byte(w)]
}

/// The big-endian bytes of a 32-bit word.
pub open spec fn be32(d: u32) -> Seq<u8> {
    seq![
        (d / 0x100_0000) as u8,
        (d / 0x1_0000 % 0x100) as u8,
        (d / 0x100 % 0x100) as u8,
        (d % 0x100) as u8,
    ]
}

/// The little-endian bytes of a 32-bit word.
pub open spec fn le32(d: u32) -> Seq<u8> {
    seq![
        (d % 0x100) as u8,
        (d / 0x100 % 0x100) as u8,
        (d / 0x1_0000 % 0x100) as u8,
        (d / 0x100_0000) as u8,
    ]
}

/// Splitting a word into bytes and joining them gives the word back.
pub proof fn word_of_its_bytes(w: u16)
    ensures
        word(high_byte(w), low_byte(w)) == w,
{
}

/// Joining two bytes and splitting the word gives the bytes back.
pub proof fn bytes_of_a_word(high: u8, low: u8)
    ensures
        high_byte(word(high, low)) == high,
        low_byte(word(high, low)) == low,
{
}

/// Splitting a double word into bytes and joining them gives it back.
pub proof fn dword_of_its_bytes(d: u32)
    ensures
        dword(be32(d)[0], be32(d)[1], be32(d)[2], be32(d)[3]) == d,
        dword(le32(d)[3], le32(d)[2], le32(d)[1], le32(d)[0]) == d,
{
}

pub fn join16(high: u8, low: u8) -> (w: u16)
    ensures
        w == word(high, low),
{
    high as u16 * 256 + low as u16
}

pub fn join32(b3: u8, b2: u8, b1: u8, b0: u8) -> (d: u32)
    ensures
        d == dword(b3, b2, b1, b0),
{
    b3 as u32 * 0x100_0000 + b2 as u32 * 0x1_0000 + b1 as u32 * 0x100 + b0 as u32
}

pub fn be16_bytes(w: u16) -> (b: [u8; 2])
    ensures
        b@ == be16(w),
{
    let b = [(w / 256) as u8, (w % 256) as u8];
    assert(b@ =~= be16(w));
    b
}

pub fn le16_bytes(w: u16) -> (b: [u8; 2])
    ensures
        b@ == le16(w),
{
    let b = [(w % 256) as u8, (w / 256) as u8];
    assert(b@ =~= le16(w));
    b
}

pub fn be32_bytes(d: u32) -> (b: [u8; 4])
    ensures
        b@ == be32(d),
{
    let b = [
        (d / 0x100_0000) as u8,
        (d / 0x1_0000 % 0x100) as u8,
        (d / 0x100 % 0x100) as u8,
        (d % 0x100) as u8,
    ];
    assert(b@ =~= be32(d));
    b
}

pub fn le32_bytes(d: u32) -> (b: [u8; 4])
    ensures
        b@ == le32(d),
{
    let b = [
        (d % 0x100) as u8,
        (d / 0x100 % 0x100) as u8,
        (d / 0x1_0000 % 0x100) as u8,
        (d / 0x100_0000) as u8,
    ];
    assert(b@ =~= le32(d));
    b
}

/// The bytes that may be there.
pub open spec fn bytes_view(v: Option<Vec<u8>>) -> Option<Seq<u8>> {
    match v {
        Some(b) => Some(b@),
        None => None,
    }
}

/// A copy of the bytes.
pub fn owned(b: &[u8]) -> (v: Vec<u8>)
    ensures
        v@ == b@,
{
    let mut v: Vec<u8> = Vec::new();
    v.extend_from_slice(b);
    assert(v@ =~= b@);
    v
}

/// `base` with the bytes from `at` on replaced by those of `part`.
pub open spec fn spliced(base: Seq<u8>, at: int, part: Seq<u8>) -> Seq<u8> {
    Seq::new(
        base.len(),
        |i: int|
            if at <= i < at + part.len() {
                part[i - at]
            } else {
                base[i]
            },
    )
}

/// Copy `src` into `dst` from position `at` on.
pub fn splice(dst: &mut [u8], at: usize, src: &[u8])
    requires
        at + src@.len() <= old(dst)@.len(),
    ensures
        final(dst)@ == spliced(old(dst)@, at as int, src@),
{
    let n = dst.len();
    let mut i: usize = 0;
    while i < src.len()
        invariant
            i <= src@.len(),
            n == old(dst)@.len(),
            at + src@.len() <= n,
            dst@ =~= spliced(old(dst)@, at as int, src@.take(i as int)),
        decreases src@.len() - i,
    {
        dst[at + i] = src[i];
        i += 1;
    }
    assert(src@.take(i as int) =~= src@);
}

/// Is every byte of `a` equal to the one of `b`, and are both as long?
pub fn same_bytes(a: &[u8], b: &[u8]) -> (same: bool)
    ensures
        same == (a@ == b@),
{
    if a.len() != b.len() {
        return false;
    }
    let mut i: usize = 0;
    while i < a.len()
        invariant
            i <= a@.len(),
            a@.len() == b@.len(),
            a@.take(i as int) =~= b@.take(i as int),
        decreases a@.len() - i,
    {
        if a[i] != b[i] {
            assert(a@[i as int] != b@[i as int]);
            return false;
        }
        assert(a@.take(i + 1) =~= a@.take(i as int).push(a@[i as int]));
        assert(b@.take(i + 1) =~= b@.take(i as int).push(b@[i as int]));
        i += 1;
    }
    assert(a@.take(i as int) =~= a@);
    assert(b@.take(i as int) =~= b@);
    true
}

/// What bytes are worth: each has 256 times the worth of the one on its less
/// significant side.
pub proof fn bytes_have_their_worth(w: u16, d: u32)
    ensures
        be16(w).len() == 2 && be16(w)[0] * 0x100 + be16(w)[1] == w,
        le16(w).len() == 2 && le16(w)[0] + le16(w)[1] * 0x100 == w,
        be32(d).len() == 4 && be32(d)[0] * 0x100_0000 + be32(d)[1] * 0x1_0000 + be32(d)[2] * 0x100
            + be32(d)[3] == d,
        le32(d).len() == 4 && le32(d)[0] + le32(d)[1] * 0x100 + le32(d)[2] * 0x1_0000 + le32(d)[3]
            * 0x100_0000 == d,
        high_byte(w) * 0x100 + low_byte(w) == w,
{
}

/// What joined bytes are worth.
pub proof fn words_are_sums(b3: u8, b2: u8, b1: u8, b0: u8)
    ensures
        word(b1, b0) == b1 * 0x100 + b0,
        dword(b3, b2, b1, b0) == b3 * 0x100_0000 + b2 * 0x1_0000 + b1 * 0x100 + b0,
{
}

/// A part put into a base stands between what was before and behind it.
pub proof fn a_part_stands_in_its_base(base: Seq<u8>, at: int, part: Seq<u8>)
    requires
        0 <= at,
        at + part.len() <= base.len(),
    ensures
        spliced(base, at, part) == base.take(at) + part + base.skip(at + part.len()),
{
    assert(spliced(base, at, part) =~= base.take(at) + part + base.skip(at + part.len()));
}

} // verus!
