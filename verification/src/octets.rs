//! Octet strings: fixed-width integers in both byte orders, equality, and the
//! lexicographic order that keyed tables are kept in.

use vstd::prelude::*;

verus! {

/// The two octets of `x`, most significant first.
pub open spec fn be16(x: u16) -> Seq<u8> {
    seq![(x / 0x100) as u8, (x % 0x100) as u8]
}

/// The four octets of `x`, most significant first.
pub open spec fn be32(x: u32) -> Seq<u8> {
    seq![
        (x / 0x100_0000) as u8,
        ((x / 0x1_0000) % 0x100) as u8,
        ((x / 0x100) % 0x100) as u8,
        (x % 0x100) as u8,
    ]
}

/// The eight octets of `x`, most significant first.
pub open spec fn be64(x: u64) -> Seq<u8> {
    be32((x / 0x1_0000_0000) as u32) + be32((x % 0x1_0000_0000) as u32)
}

/// The four octets of `x`, least significant first.
pub open spec fn le32(x: u32) -> Seq<u8> {
    seq![
        (x % 0x100) as u8,
        ((x / 0x100) % 0x100) as u8,
        ((x / 0x1_0000) % 0x100) as u8,
        (x / 0x100_0000) as u8,
    ]
}

/// The eight octets of `x`, least significant first.
pub open spec fn le64(x: u64) -> Seq<u8> {
    le32((x % 0x1_0000_0000) as u32) + le32((x / 0x1_0000_0000) as u32)
}

/// The number that two octets spell, most significant first.
pub open spec fn be16_value(s: Seq<u8>) -> u16 {
    (s[0] * 0x100 + s[1]) as u16
}

/// The number that four octets spell, most significant first.
pub open spec fn be32_value(s: Seq<u8>) -> u32 {
    (s[0] * 0x100_0000 + s[1] * 0x1_0000 + s[2] * 0x100 + s[3]) as u32
}

/// The number that eight octets spell, most significant first.
pub open spec fn be64_value(s: Seq<u8>) -> u64 {
    (be32_value(s.subrange(0, 4)) * 0x1_0000_0000 + be32_value(s.subrange(4, 8))) as u64
}

/// The number that four octets spell, least significant first.
pub open spec fn le32_value(s: Seq<u8>) -> u32 {
    (s[0] + s[1] * 0x100 + s[2] * 0x1_0000 + s[3] * 0x100_0000) as u32
}

/// The number that eight octets spell, least significant first.
pub open spec fn le64_value(s: Seq<u8>) -> u64 {
    (le32_value(s.subrange(0, 4)) + le32_value(s.subrange(4, 8)) * 0x1_0000_0000) as u64
}

/// Two octets spell the number they were written from.
pub proof fn be16_round_trip(x: u16)
    ensures
        be16(x).len() == 2,
        be16_value(be16(x)) == x,
{
}

/// Four octets, most significant first, spell the number they were written from.
pub proof fn be32_round_trip(x: u32)
    ensures
        be32(x).len() == 4,
        be32_value(be32(x)) == x,
{
}

/// Four octets, least significant first, spell the number they were written from.
pub proof fn le32_round_trip(x: u32)
    ensures
        le32(x).len() == 4,
        le32_value(le32(x)) == x,
{
}

/// Eight octets, most significant first, spell the number they were written from.
pub proof fn be64_round_trip(x: u64)
    ensures
        be64(x).len() == 8,
        be64_value(be64(x)) == x,
{
    let high = (x / 0x1_0000_0000) as u32;
    let low = (x % 0x1_0000_0000) as u32;
    be32_round_trip(high);
    be32_round_trip(low);
    assert(be64(x).subrange(0, 4) =~= be32(high));
    assert(be64(x).subrange(4, 8) =~= be32(low));
}

/// Eight octets, least significant first, spell the number they were written from.
pub proof fn le64_round_trip(x: u64)
    ensures
        le64(x).len() == 8,
        le64_value(le64(x)) == x,
{
    let high = (x / 0x1_0000_0000) as u32;
    let low = (x % 0x1_0000_0000) as u32;
    le32_round_trip(high);
    le32_round_trip(low);
    assert(le64(x).subrange(0, 4) =~= le32(low));
    assert(le64(x).subrange(4, 8) =~= le32(high));
}

/// Appends the octets of `bytes`.
pub fn put_slice(out: &mut Vec<u8>, bytes: &[u8])
    ensures
        final(out)@ == old(out)@ + bytes@,
{
    out.extend_from_slice(bytes);
    assert(out@ =~= old(out)@ + bytes@);
}

/// Appends the two octets of `x`, most significant first.
pub fn put_be16(out: &mut Vec<u8>, x: u16)
    ensures
        final(out)@ == old(out)@ + be16(x),
{
    out.push((x / 0x100) as u8);
    out.push((x % 0x100) as u8);
    assert(out@ =~= old(out)@ + be16(x));
}

/// Appends the four octets of `x`, most significant first.
pub fn put_be32(out: &mut Vec<u8>, x: u32)
    ensures
        final(out)@ == old(out)@ + be32(x),
{
    out.push((x / 0x100_0000) as u8);
    out.push(((x / 0x1_0000) % 0x100) as u8);
    out.push(((x / 0x100) % 0x100) as u8);
    out.push((x % 0x100) as u8);
    assert(out@ =~= old(out)@ + be32(x));
}

/// Appends the eight octets of `x`, most significant first.
pub fn put_be64(out: &mut Vec<u8>, x: u64)
    ensures
        final(out)@ == old(out)@ + be64(x),
{
    put_be32(out, (x / 0x1_0000_0000) as u32);
    put_be32(out, (x % 0x1_0000_0000) as u32);
    assert(out@ =~= old(out)@ + be64(x));
}

/// Appends the four octets of `x`, least significant first.
pub fn put_le32(out: &mut Vec<u8>, x: u32)
    ensures
        final(out)@ == old(out)@ + le32(x),
{
    out.push((x % 0x100) as u8);
    out.push(((x / 0x100) % 0x100) as u8);
    out.push(((x / 0x1_0000) % 0x100) as u8);
    out.push((x / 0x100_0000) as u8);
    assert(out@ =~= old(out)@ + le32(x));
}

/// Appends the eight octets of `x`, least significant first.
pub fn put_le64(out: &mut Vec<u8>, x: u64)
    ensures
        final(out)@ == old(out)@ + le64(x),
{
    put_le32(out, (x % 0x1_0000_0000) as u32);
    put_le32(out, (x / 0x1_0000_0000) as u32);
    assert(out@ =~= old(out)@ + le64(x));
}

/// Reads two octets at `at`, most significant first.
pub fn get_be16(bytes: &[u8], at: usize) -> (x: u16)
    requires
        at + 2 <= bytes@.len(),
    ensures
        x == be16_value(bytes@.subrange(at as int, at + 2)),
{
    (bytes[at] as u16) * 0x100 + (bytes[at + 1] as u16)
}

/// Reads four octets at `at`, most significant first.
pub fn get_be32(bytes: &[u8], at: usize) -> (x: u32)
    requires
        at + 4 <= bytes@.len(),
    ensures
        x == be32_value(bytes@.subrange(at as int, at + 4)),
{
    (bytes[at] as u32) * 0x100_0000 + (bytes[at + 1] as u32) * 0x1_0000 + (bytes[at + 2] as u32)
        * 0x100 + (bytes[at + 3] as u32)
}

/// Reads four octets at `at`, least significant first.
pub fn get_le32(bytes: &[u8], at: usize) -> (x: u32)
    requires
        at + 4 <= bytes@.len(),
    ensures
        x == le32_value(bytes@.subrange(at as int, at + 4)),
{
    (bytes[at] as u32) + (bytes[at + 1] as u32) * 0x100 + (bytes[at + 2] as u32) * 0x1_0000 + (
    bytes[at + 3] as u32) * 0x100_0000
}

/// Reads eight octets at `at`, most significant first.
pub fn get_be64(bytes: &[u8], at: usize) -> (x: u64)
    requires
        at + 8 <= bytes@.len(),
    ensures
        x == be64_value(bytes@.subrange(at as int, at + 8)),
{
    let whole_len: usize = bytes.len();
    assert(at + 8 <= whole_len);
    let high: u32 = get_be32(bytes, at);
    let low: u32 = get_be32(bytes, at + 4);
    let ghost whole = bytes@.subrange(at as int, at + 8);
    assert(whole.subrange(0, 4) =~= bytes@.subrange(at as int, at + 4));
    assert(whole.subrange(4, 8) =~= bytes@.subrange(at + 4, at + 8));
    (high as u64) * 0x1_0000_0000 + (low as u64)
}

/// Reads eight octets at `at`, least significant first.
pub fn get_le64(bytes: &[u8], at: usize) -> (x: u64)
    requires
        at + 8 <= bytes@.len(),
    ensures
        x == le64_value(bytes@.subrange(at as int, at + 8)),
{
    let whole_len: usize = bytes.len();
    assert(at + 8 <= whole_len);
    let low: u32 = get_le32(bytes, at);
    let high: u32 = get_le32(bytes, at + 4);
    let ghost whole = bytes@.subrange(at as int, at + 8);
    assert(whole.subrange(0, 4) =~= bytes@.subrange(at as int, at + 4));
    assert(whole.subrange(4, 8) =~= bytes@.subrange(at + 4, at + 8));
    (low as u64) + (high as u64) * 0x1_0000_0000
}

/// The octets of `bytes`, owned.
pub fn to_vec(bytes: &[u8]) -> (v: Vec<u8>)
    ensures
        v@ == bytes@,
{
    let mut v: Vec<u8> = Vec::new();
    put_slice(&mut v, bytes);
    assert(v@ =~= bytes@);
    v
}

/// Sixteen octets at `at`, as an array.
pub fn array16(bytes: &[u8], at: usize) -> (a: [u8; 16])
    requires
        at + 16 <= bytes@.len(),
    ensures
        a@ == bytes@.subrange(at as int, at + 16),
{
    let mut a: [u8; 16] = [0; 16];
    let whole_len: usize = bytes.len();
    let mut i: usize = 0;
    while i < 16
        invariant
            i <= 16,
            at + 16 <= whole_len == bytes@.len(),
            forall|j: int| 0 <= j < i ==> a@[j] == bytes@[at + j],
        decreases 16 - i,
    {
        a[i] = bytes[at + i];
        i += 1;
    }
    assert(a@ =~= bytes@.subrange(at as int, at + 16));
    a
}

/// Thirty-two octets at `at`, as an array.
pub fn array32(bytes: &[u8], at: usize) -> (a: [u8; 32])
    requires
        at + 32 <= bytes@.len(),
    ensures
        a@ == bytes@.subrange(at as int, at + 32),
{
    let mut a: [u8; 32] = [0; 32];
    let whole_len: usize = bytes.len();
    let mut i: usize = 0;
    while i < 32
        invariant
            i <= 32,
            at + 32 <= whole_len == bytes@.len(),
            forall|j: int| 0 <= j < i ==> a@[j] == bytes@[at + j],
        decreases 32 - i,
    {
        a[i] = bytes[at + i];
        i += 1;
    }
    assert(a@ =~= bytes@.subrange(at as int, at + 32));
    a
}

/// Whether two octet strings are the same.
pub fn same(a: &[u8], b: &[u8]) -> (r: bool)
    ensures
        r == (a@ == b@),
{
    if a.len() != b.len() {
        return false;
    }
    let mut i: usize = 0;
    while i < a.len()
        invariant
            i <= a@.len(),
            a@.len() == b@.len(),
            forall|j: int| 0 <= j < i ==> a@[j] == b@[j],
        decreases a@.len() - i,
    {
        if a[i] != b[i] {
            return false;
        }
        i += 1;
    }
    assert(a@ =~= b@);
    true
}

/// `a` and `b` agree on their first `k` octets, and the next one puts `a` first.
pub open spec fn splits(a: Seq<u8>, b: Seq<u8>, k: int) -> bool {
    &&& 0 <= k <= a.len()
    &&& k < b.len()
    &&& forall|i: int| 0 <= i < k ==> a[i] == b[i]
    &&& k < a.len() ==> a[k] < b[k]
}

/// `a` comes before `b` in lexicographic order; a strict prefix comes first.
pub open spec fn before(a: Seq<u8>, b: Seq<u8>) -> bool {
    exists|k: int| splits(a, b, k)
}

/// The order is irreflexive.
pub proof fn before_irreflexive(a: Seq<u8>)
    ensures
        !before(a, a),
{
}

/// The order is transitive.
pub proof fn before_transitive(a: Seq<u8>, b: Seq<u8>, c: Seq<u8>)
    requires
        before(a, b),
        before(b, c),
    ensures
        before(a, c),
{
    let k = choose|k: int| splits(a, b, k);
    let m = choose|m: int| splits(b, c, m);
    let n = if k <= m { k } else { m };
    assert(splits(a, c, n));
}

/// Whether `a` comes before `b`; when neither does, they are the same.
pub fn is_before(a: &[u8], b: &[u8]) -> (r: bool)
    ensures
        r == before(a@, b@),
        !r && a@ != b@ ==> before(b@, a@),
{
    let mut i: usize = 0;
    while i < a.len() && i < b.len()
        invariant
            i <= a@.len(),
            i <= b@.len(),
            forall|j: int| 0 <= j < i ==> a@[j] == b@[j],
        decreases a@.len() - i,
    {
        if a[i] < b[i] {
            assert(splits(a@, b@, i as int));
            return true;
        }
        if b[i] < a[i] {
            assert(splits(b@, a@, i as int));
            assert(!before(a@, b@));
            return false;
        }
        i += 1;
    }
    if i < b.len() {
        assert(splits(a@, b@, i as int));
        return true;
    }
    proof {
        if i < a@.len() {
            assert(splits(b@, a@, i as int));
        } else {
            assert(a@ =~= b@);
        }
    }
    false
}

} // verus!
