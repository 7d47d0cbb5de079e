use vstd::bytes::*;
use vstd::prelude::*;

verus! {

/// The two bytes of `x`, most significant first (network order).
pub open spec fn be_u16_bytes(x: u16) -> Seq<u8> {
    seq![(x >> 8) as u8, (x & 0xff) as u8]
}

/// The value of two bytes read most significant first.
pub open spec fn be_u16_value(s: Seq<u8>) -> u16
    recommends
        s.len() == 2,
{
    ((s[0] as u16) << 8) | (s[1] as u16)
}

/// The four bytes of `x` in two's complement, least significant first.
pub open spec fn le_i32_bytes(x: i32) -> Seq<u8> {
    spec_u32_to_le_bytes(x as u32)
}

/// The eight bytes of `x` in two's complement, least significant first.
pub open spec fn le_i64_bytes(x: i64) -> Seq<u8> {
    spec_u64_to_le_bytes(x as u64)
}

/// The value of four bytes read least significant first, in two's complement.
pub open spec fn le_i32_value(s: Seq<u8>) -> i32 {
    spec_u32_from_le_bytes(s) as i32
}

/// The value of eight bytes read least significant first, in two's complement.
pub open spec fn le_i64_value(s: Seq<u8>) -> i64 {
    spec_u64_from_le_bytes(s) as i64
}

/// Appends `bytes` to `buf`.
pub fn push_all(buf: &mut Vec<u8>, bytes: &[u8])
    ensures
        final(buf)@ == old(buf)@ + bytes@,
{
    let mut i: usize = 0;
    while i < bytes.len()
        invariant
            i <= bytes@.len(),
            buf@ == old(buf)@ + bytes@.subrange(0, i as int),
        decreases bytes@.len() - i,
    {
        buf.push(bytes[i]);
        assert(bytes@.subrange(0, i + 1) =~= bytes@.subrange(0, i as int).push(bytes@[i as int]));
        i = i + 1;
    }
    assert(bytes@.subrange(0, i as int) =~= bytes@);
}

/// Appends `x` to `buf`, most significant byte first.
pub fn push_be_u16(buf: &mut Vec<u8>, x: u16)
    ensures
        final(buf)@ == old(buf)@ + be_u16_bytes(x),
{
    buf.push((x >> 8) as u8);
    buf.push((x & 0xff) as u8);
    assert(final(buf)@ =~= old(buf)@ + be_u16_bytes(x));
}

/// Appends the little-endian bytes of `x` to `buf`.
pub fn push_le_u32(buf: &mut Vec<u8>, x: u32)
    ensures
        final(buf)@ == old(buf)@ + spec_u32_to_le_bytes(x),
{
    let b = u32_to_le_bytes(x);
    push_all(buf, b.as_slice());
}

/// Appends the little-endian bytes of `x` to `buf`.
pub fn push_le_u64(buf: &mut Vec<u8>, x: u64)
    ensures
        final(buf)@ == old(buf)@ + spec_u64_to_le_bytes(x),
{
    let b = u64_to_le_bytes(x);
    push_all(buf, b.as_slice());
}

/// The two bytes of `bytes` at `at`, read most significant first.
pub fn read_be_u16(bytes: &[u8], at: usize) -> (r: u16)
    requires
        at + 2 <= bytes@.len(),
    ensures
        r == be_u16_value(bytes@.subrange(at as int, at + 2)),
{
    let hi = bytes[at] as u16;
    let lo = bytes[at + 1] as u16;
    (hi << 8) | lo
}

/// The four bytes of `bytes` at `at`, read least significant first.
pub fn read_le_u32(bytes: &[u8], at: usize) -> (r: u32)
    requires
        at + 4 <= bytes@.len(),
    ensures
        r == spec_u32_from_le_bytes(bytes@.subrange(at as int, at + 4)),
{
    let (_, rest) = bytes.split_at(at);
    let r = u32_from_le_bytes(vstd::slice::slice_subrange(rest, 0, 4));
    assert(rest@.subrange(0, 4) =~= bytes@.subrange(at as int, at + 4));
    r
}

/// The eight bytes of `bytes` at `at`, read least significant first.
pub fn read_le_u64(bytes: &[u8], at: usize) -> (r: u64)
    requires
        at + 8 <= bytes@.len(),
    ensures
        r == spec_u64_from_le_bytes(bytes@.subrange(at as int, at + 8)),
{
    let (_, rest) = bytes.split_at(at);
    let r = u64_from_le_bytes(vstd::slice::slice_subrange(rest, 0, 8));
    assert(rest@.subrange(0, 8) =~= bytes@.subrange(at as int, at + 8));
    r
}

/// The sixteen bytes of `bytes` at `at`.
pub fn read_array16(bytes: &[u8], at: usize) -> (r: [u8; 16])
    requires
        at + 16 <= bytes@.len(),
    ensures
        r@ == bytes@.subrange(at as int, at + 16),
{
    let (_, rest) = bytes.split_at(at);
    let mut r: [u8; 16] = [0u8; 16];
    let mut i: usize = 0;
    while i < 16
        invariant
            i <= 16,
            rest@.len() >= 16,
            forall|j: int| 0 <= j < i ==> r@[j] == rest@[j],
        decreases 16 - i,
    {
        r[i] = rest[i];
        i = i + 1;
    }
    assert(rest@.subrange(0, 16) =~= bytes@.subrange(at as int, at + 16));
    assert(r@ =~= rest@.subrange(0, 16));
    r
}

/// Reading back the bytes written for an integer gives the integer.
pub proof fn lemma_int_bytes_round_trip()
    ensures
        forall|x: u16| #[trigger] be_u16_bytes(x).len() == 2 && be_u16_value(be_u16_bytes(x)) == x,
        forall|x: u32|
            #![trigger spec_u32_to_le_bytes(x)]
            spec_u32_to_le_bytes(x).len() == 4 && spec_u32_from_le_bytes(spec_u32_to_le_bytes(x))
                == x,
        forall|x: u64|
            #![trigger spec_u64_to_le_bytes(x)]
            spec_u64_to_le_bytes(x).len() == 8 && spec_u64_from_le_bytes(spec_u64_to_le_bytes(x))
                == x,
        forall|x: i32| #[trigger] le_i32_bytes(x).len() == 4 && le_i32_value(le_i32_bytes(x)) == x,
        forall|x: i64| #[trigger] le_i64_bytes(x).len() == 8 && le_i64_value(le_i64_bytes(x)) == x,
{
    lemma_auto_spec_u32_to_from_le_bytes();
    lemma_auto_spec_u64_to_from_le_bytes();
    assert forall|x: u16| #[trigger] be_u16_bytes(x).len() == 2 && be_u16_value(be_u16_bytes(x)) == x by {
        assert((((x >> 8) as u8) as u16) << 8 | (((x & 0xff) as u8) as u16) == x) by (bit_vector);
    }
    assert forall|x: i32| #[trigger] le_i32_bytes(x).len() == 4 && le_i32_value(le_i32_bytes(x)) == x by {
        assert(((x as u32) as i32) == x) by (bit_vector);
    }
    assert forall|x: i64| #[trigger] le_i64_bytes(x).len() == 8 && le_i64_value(le_i64_bytes(x)) == x by {
        assert(((x as u64) as i64) == x) by (bit_vector);
    }
}

} // verus!
