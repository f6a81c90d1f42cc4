//! Little-endian building blocks of the save format.
//!
//! Every `put_*` appends to a buffer and every `take_*` reads at a cursor and
//! moves it past what it read.
use vstd::prelude::*;

verus! {

/// The byte that stands for a flag.
pub open spec fn flag_byte(b: bool) -> u8 {
    if b {
        1
    } else {
        0
    }
}

/// The two bytes of a 16-bit number, low byte first.
pub open spec fn le16(x: u16) -> Seq<u8> {
    seq![(x % 256) as u8, (x / 256) as u8]
}

/// The four bytes of a 32-bit number, low byte first.
pub open spec fn le32(x: u32) -> Seq<u8> {
    le16((x % 65536) as u16) + le16((x / 65536) as u16)
}

/// The eight bytes of a 64-bit number, low byte first.
pub open spec fn le64(x: u64) -> Seq<u8> {
    le32((x % 4294967296) as u32) + le32((x / 4294967296) as u32)
}

/// The flag stored at `i`.
pub open spec fn flag_at(s: Seq<u8>, i: int) -> bool {
    s[i] != 0
}

/// The 16-bit number stored at `i`.
pub open spec fn u16_at(s: Seq<u8>, i: int) -> u16 {
    (s[i] + 256 * s[i + 1]) as u16
}

/// The 32-bit number stored at `i`.
pub open spec fn u32_at(s: Seq<u8>, i: int) -> u32 {
    (u16_at(s, i) + 65536 * u16_at(s, i + 2)) as u32
}

/// The 64-bit number stored at `i`.
pub open spec fn u64_at(s: Seq<u8>, i: int) -> u64 {
    (u32_at(s, i) + 4294967296 * u32_at(s, i + 4)) as u64
}

/// `part` lies in `s` at `i`.
pub open spec fn found_at(s: Seq<u8>, i: int, part: Seq<u8>) -> bool {
    &&& 0 <= i
    &&& i + part.len() <= s.len()
    &&& forall|k: int| 0 <= k < part.len() ==> s[i + k] == #[trigger] part[k]
}

/// Numbers written in little-endian order are read back unchanged.
pub proof fn lemma_u16_found(s: Seq<u8>, i: int, x: u16)
    requires
        found_at(s, i, le16(x)),
    ensures
        u16_at(s, i) == x,
{
    let p = le16(x);
    assert(s[i + 0] == p[0]);
    assert(s[i + 1] == p[1]);
}

/// Numbers written in little-endian order are read back unchanged.
pub proof fn lemma_u32_found(s: Seq<u8>, i: int, x: u32)
    requires
        found_at(s, i, le32(x)),
    ensures
        u32_at(s, i) == x,
{
    let lo = le16((x % 65536) as u16);
    let hi = le16((x / 65536) as u16);
    lemma_found_split(s, i, lo, hi);
    lemma_u16_found(s, i, (x % 65536) as u16);
    lemma_u16_found(s, i + 2, (x / 65536) as u16);
}

/// Numbers written in little-endian order are read back unchanged.
pub proof fn lemma_u64_found(s: Seq<u8>, i: int, x: u64)
    requires
        found_at(s, i, le64(x)),
    ensures
        u64_at(s, i) == x,
{
    let lo = le32((x % 4294967296) as u32);
    let hi = le32((x / 4294967296) as u32);
    lemma_found_split(s, i, lo, hi);
    lemma_u32_found(s, i, (x % 4294967296) as u32);
    lemma_u32_found(s, i + 4, (x / 4294967296) as u32);
}

/// Two parts found one behind the other are each found in their place.
pub proof fn lemma_found_split(s: Seq<u8>, i: int, a: Seq<u8>, b: Seq<u8>)
    requires
        found_at(s, i, a + b),
    ensures
        found_at(s, i, a),
        found_at(s, i + a.len(), b),
{
    let ab = a + b;
    assert forall|k: int| 0 <= k < a.len() implies s[i + k] == #[trigger] a[k] by {
        assert(ab[k] == a[k]);
    }
    assert forall|k: int| 0 <= k < b.len() implies s[i + a.len() + k] == #[trigger] b[k] by {
        assert(ab[a.len() + k] == b[k]);
    }
}

/// A part that is found is the run of bytes at its place.
pub proof fn lemma_found_is_subrange(s: Seq<u8>, i: int, part: Seq<u8>)
    requires
        found_at(s, i, part),
    ensures
        s.subrange(i, i + part.len()) == part,
{
    assert(s.subrange(i, i + part.len()) =~= part) by {
        assert forall|k: int| 0 <= k < part.len() implies s[i + k] == #[trigger] part[k] by {}
    }
}

/// Two parts found one behind the other are each found in their place.
pub broadcast proof fn lemma_found_concat(s: Seq<u8>, i: int, a: Seq<u8>, b: Seq<u8>)
    requires
        #[trigger] found_at(s, i, a + b),
    ensures
        found_at(s, i, a),
        found_at(s, i + a.len(), b),
{
    lemma_found_split(s, i, a, b);
}

/// The last byte of a part is found behind the others.
pub broadcast proof fn lemma_found_push(s: Seq<u8>, i: int, a: Seq<u8>, x: u8)
    requires
        #[trigger] found_at(s, i, a.push(x)),
    ensures
        found_at(s, i, a),
        s[i + a.len()] == x,
{
    let ax = a.push(x);
    assert(ax[a.len() as int] == x);
    assert forall|k: int| 0 <= k < a.len() implies s[i + k] == #[trigger] a[k] by {
        assert(ax[k] == a[k]);
    }
}

/// A 16-bit number that is found is read.
pub broadcast proof fn lemma_found_u16(s: Seq<u8>, i: int, x: u16)
    requires
        #[trigger] found_at(s, i, le16(x)),
    ensures
        u16_at(s, i) == x,
{
    lemma_u16_found(s, i, x);
}

/// A 64-bit number that is found is read.
pub broadcast proof fn lemma_found_u64(s: Seq<u8>, i: int, x: u64)
    requires
        #[trigger] found_at(s, i, le64(x)),
    ensures
        u64_at(s, i) == x,
{
    lemma_u64_found(s, i, x);
}

/// A 32-bit number that is found is read.
pub broadcast proof fn lemma_found_u32(s: Seq<u8>, i: int, x: u32)
    requires
        #[trigger] found_at(s, i, le32(x)),
    ensures
        u32_at(s, i) == x,
{
    lemma_u32_found(s, i, x);
}

/// Takes a stored form apart into its parts.
pub broadcast group group_found {
    lemma_found_concat,
    lemma_found_push,
    lemma_found_u16,
    lemma_found_u32,
    lemma_found_u64,
}

/// Appends a flag as one byte.
pub fn put_flag(buf: &mut Vec<u8>, b: bool)
    ensures
        final(buf)@ == old(buf)@.push(flag_byte(b)),
{
    buf.push(b as u8);
}

/// Appends a 16-bit number.
pub fn put_u16(buf: &mut Vec<u8>, x: u16)
    ensures
        final(buf)@ == old(buf)@ + le16(x),
{
    buf.push((x % 256) as u8);
    buf.push((x / 256) as u8);
    assert(buf@ =~= old(buf)@ + le16(x));
}

/// Appends a 32-bit number.
pub fn put_u32(buf: &mut Vec<u8>, x: u32)
    ensures
        final(buf)@ == old(buf)@ + le32(x),
{
    put_u16(buf, (x % 65536) as u16);
    put_u16(buf, (x / 65536) as u16);
    assert(buf@ =~= old(buf)@ + le32(x));
}

/// Appends a 64-bit number.
pub fn put_u64(buf: &mut Vec<u8>, x: u64)
    ensures
        final(buf)@ == old(buf)@ + le64(x),
{
    put_u32(buf, (x % 4294967296) as u32);
    put_u32(buf, (x / 4294967296) as u32);
    assert(buf@ =~= old(buf)@ + le64(x));
}

/// Appends a run of bytes.
pub fn put_bytes(buf: &mut Vec<u8>, bytes: &[u8])
    ensures
        final(buf)@ == old(buf)@ + bytes@,
{
    buf.extend_from_slice(bytes);
    assert(buf@ =~= old(buf)@ + bytes@);
}

/// Reads one byte at the cursor.
pub fn take_u8(data: &[u8], pos: &mut usize) -> (r: u8)
    requires
        *old(pos) < data@.len(),
    ensures
        r == data@[*old(pos) as int],
        *final(pos) == *old(pos) + 1,
{
    let r = data[*pos];
    *pos = *pos + 1;
    r
}

/// Reads one flag at the cursor: any byte but zero is `true`.
pub fn take_flag(data: &[u8], pos: &mut usize) -> (r: bool)
    requires
        *old(pos) < data@.len(),
    ensures
        r == flag_at(data@, *old(pos) as int),
        *final(pos) == *old(pos) + 1,
{
    take_u8(data, pos) != 0
}

/// Reads a 16-bit number at the cursor.
pub fn take_u16(data: &[u8], pos: &mut usize) -> (r: u16)
    requires
        *old(pos) + 2 <= data@.len(),
    ensures
        r == u16_at(data@, *old(pos) as int),
        *final(pos) == *old(pos) + 2,
{
    let lo = take_u8(data, pos);
    let hi = take_u8(data, pos);
    lo as u16 + 256 * (hi as u16)
}

/// Reads a 32-bit number at the cursor.
pub fn take_u32(data: &[u8], pos: &mut usize) -> (r: u32)
    requires
        *old(pos) + 4 <= data@.len(),
    ensures
        r == u32_at(data@, *old(pos) as int),
        *final(pos) == *old(pos) + 4,
{
    let lo = take_u16(data, pos);
    let hi = take_u16(data, pos);
    lo as u32 + 65536 * (hi as u32)
}

/// Reads a 64-bit number at the cursor.
pub fn take_u64(data: &[u8], pos: &mut usize) -> (r: u64)
    requires
        *old(pos) + 8 <= data@.len(),
    ensures
        r == u64_at(data@, *old(pos) as int),
        *final(pos) == *old(pos) + 8,
{
    let lo = take_u32(data, pos);
    let hi = take_u32(data, pos);
    lo as u64 + 4294967296 * (hi as u64)
}

/// Reads `n` bytes at the cursor.
pub fn take_bytes(data: &[u8], pos: &mut usize, n: usize) -> (r: Vec<u8>)
    requires
        *old(pos) + n <= data@.len(),
    ensures
        r@ == data@.subrange(*old(pos) as int, *old(pos) + n),
        *final(pos) == *old(pos) + n,
{
    let start = *pos;
    let total: usize = data.len();
    let mut r: Vec<u8> = Vec::new();
    let mut i: usize = 0;
    while i < n
        invariant
            i <= n,
            start + n <= total == data@.len(),
            r@ == data@.subrange(start as int, start + i),
        decreases n - i,
    {
        r.push(data[start + i]);
        i = i + 1;
        assert(r@ =~= data@.subrange(start as int, start + i));
    }
    *pos = start + n;
    r
}

/// Numbers are stored by their bytes, the lowest first, and a flag as one or zero.
pub proof fn law_lowest_byte_first(x: u16, y: u32, z: u64)
    ensures
        le16(x).len() == 2,
        le32(y).len() == 4,
        le64(z).len() == 8,
        x == le16(x)[0] + 256 * le16(x)[1],
        y == le32(y)[0] + 256 * le32(y)[1] + 65536 * le32(y)[2] + 16777216 * le32(y)[3],
        z == le64(z)[0] + 256 * le64(z)[1] + 65536 * le64(z)[2] + 16777216 * le64(z)[3]
            + 4294967296 * (le64(z)[4] + 256 * le64(z)[5] + 65536 * le64(z)[6] + 16777216
            * le64(z)[7]),
        flag_byte(true) == 1,
        flag_byte(false) == 0,
{
}

} // verus!
