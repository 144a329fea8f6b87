//! Little-endian integers, as they lie in the buffers that the Steam client
//! hands to a callback.

use vstd::prelude::*;

verus! {

/// The unsigned 32 bit integer whose four bytes start at `at`, lowest first.
pub open spec fn spec_u32_le(b: Seq<u8>, at: int) -> u32 {
    (b[at] as int + b[at + 1] as int * 0x100 + b[at + 2] as int * 0x1_0000 + b[at + 3] as int
        * 0x100_0000) as u32
}

/// The signed 32 bit integer whose four bytes start at `at`, lowest first,
/// in two's complement.
pub open spec fn spec_i32_le(b: Seq<u8>, at: int) -> i32 {
    let u = spec_u32_le(b, at);
    if u < 0x8000_0000 {
        u as i32
    } else {
        (u as int - 0x1_0000_0000) as i32
    }
}

/// The unsigned 64 bit integer whose eight bytes start at `at`, lowest first.
pub open spec fn spec_u64_le(b: Seq<u8>, at: int) -> u64 {
    (spec_u32_le(b, at) as int + spec_u32_le(b, at + 4) as int * 0x1_0000_0000) as u64
}

/// The four bytes of `v`, lowest first.
pub open spec fn spec_u32_bytes(v: u32) -> Seq<u8> {
    seq![
        (v as int % 0x100) as u8,
        (v as int / 0x100 % 0x100) as u8,
        (v as int / 0x1_0000 % 0x100) as u8,
        (v as int / 0x100_0000) as u8,
    ]
}

/// The four bytes of `v` in two's complement, lowest first.
pub open spec fn spec_i32_bytes(v: i32) -> Seq<u8> {
    if v >= 0 {
        spec_u32_bytes(v as u32)
    } else {
        spec_u32_bytes((v as int + 0x1_0000_0000) as u32)
    }
}

/// The eight bytes of `v`, lowest first.
pub open spec fn spec_u64_bytes(v: u64) -> Seq<u8> {
    spec_u32_bytes((v as int % 0x1_0000_0000) as u32) + spec_u32_bytes(
        (v as int / 0x1_0000_0000) as u32,
    )
}

/// Reads the unsigned 32 bit integer at `at`.
pub fn read_u32_le(b: &[u8], at: usize) -> (v: u32)
    requires
        at + 4 <= b@.len(),
    ensures
        v == spec_u32_le(b@, at as int),
{
    let b0: u32 = b[at] as u32;
    let b1: u32 = b[at + 1] as u32;
    let b2: u32 = b[at + 2] as u32;
    let b3: u32 = b[at + 3] as u32;
    b0 + b1 * 0x100 + b2 * 0x1_0000 + b3 * 0x100_0000
}

/// Reads the signed 32 bit integer at `at`.
pub fn read_i32_le(b: &[u8], at: usize) -> (v: i32)
    requires
        at + 4 <= b@.len(),
    ensures
        v == spec_i32_le(b@, at as int),
{
    let u: u32 = read_u32_le(b, at);
    if u < 0x8000_0000 {
        u as i32
    } else {
        (u as i64 - 0x1_0000_0000) as i32
    }
}

/// Reads the unsigned 64 bit integer at `at`.
pub fn read_u64_le(b: &[u8], at: usize) -> (v: u64)
    requires
        at + 8 <= b@.len(),
    ensures
        v == spec_u64_le(b@, at as int),
{
    let len: usize = b.len();
    assert(at + 8 <= len);
    let lo: u64 = read_u32_le(b, at) as u64;
    let hi: u64 = read_u32_le(b, at + 4) as u64;
    lo + hi * 0x1_0000_0000
}

/// Appends the four bytes of `v` to `out`.
pub fn write_u32_le(out: &mut Vec<u8>, v: u32)
    ensures
        final(out)@ == old(out)@ + spec_u32_bytes(v),
{
    out.push((v % 0x100) as u8);
    out.push((v / 0x100 % 0x100) as u8);
    out.push((v / 0x1_0000 % 0x100) as u8);
    out.push((v / 0x100_0000) as u8);
    assert(out@ =~= old(out)@ + spec_u32_bytes(v));
}

/// Appends the four bytes of `v`, in two's complement, to `out`.
pub fn write_i32_le(out: &mut Vec<u8>, v: i32)
    ensures
        final(out)@ == old(out)@ + spec_i32_bytes(v),
{
    if v >= 0 {
        write_u32_le(out, v as u32);
    } else {
        write_u32_le(out, (v as i64 + 0x1_0000_0000) as u32);
    }
}

/// Appends the eight bytes of `v` to `out`.
pub fn write_u64_le(out: &mut Vec<u8>, v: u64)
    ensures
        final(out)@ == old(out)@ + spec_u64_bytes(v),
{
    write_u32_le(out, (v % 0x1_0000_0000) as u32);
    write_u32_le(out, (v / 0x1_0000_0000) as u32);
    assert(out@ =~= old(out)@ + spec_u64_bytes(v));
}

/// Appends `n` zero bytes to `out`: the padding between two fields.
pub fn write_padding(out: &mut Vec<u8>, n: usize)
    ensures
        final(out)@ == old(out)@ + Seq::new(n as nat, |i: int| 0u8),
{
    let mut i: usize = 0;
    while i < n
        invariant
            i <= n,
            out@ == old(out)@ + Seq::new(i as nat, |j: int| 0u8),
        decreases n - i,
    {
        out.push(0u8);
        i = i + 1;
        assert(out@ =~= old(out)@ + Seq::new(i as nat, |j: int| 0u8));
    }
}

/// Reading gives back what was written: an unsigned 32 bit integer that
/// stands at `at` in `b` is read from there.
pub proof fn lemma_u32_round_trip(b: Seq<u8>, at: int, v: u32)
    requires
        0 <= at,
        at + 4 <= b.len(),
        b.subrange(at, at + 4) == spec_u32_bytes(v),
    ensures
        spec_u32_le(b, at) == v,
{
    let s = b.subrange(at, at + 4);
    assert(s[0] == b[at] && s[1] == b[at + 1] && s[2] == b[at + 2] && s[3] == b[at + 3]);
}

/// Reading gives back what was written, for a signed 32 bit integer.
pub proof fn lemma_i32_round_trip(b: Seq<u8>, at: int, v: i32)
    requires
        0 <= at,
        at + 4 <= b.len(),
        b.subrange(at, at + 4) == spec_i32_bytes(v),
    ensures
        spec_i32_le(b, at) == v,
{
    if v >= 0 {
        lemma_u32_round_trip(b, at, v as u32);
    } else {
        lemma_u32_round_trip(b, at, (v as int + 0x1_0000_0000) as u32);
    }
}

/// Reading gives back what was written, for an unsigned 64 bit integer.
pub proof fn lemma_u64_round_trip(b: Seq<u8>, at: int, v: u64)
    requires
        0 <= at,
        at + 8 <= b.len(),
        b.subrange(at, at + 8) == spec_u64_bytes(v),
    ensures
        spec_u64_le(b, at) == v,
{
    let s = b.subrange(at, at + 8);
    let lo = (v as int % 0x1_0000_0000) as u32;
    let hi = (v as int / 0x1_0000_0000) as u32;
    assert(b.subrange(at, at + 4) =~= s.subrange(0, 4));
    assert(b.subrange(at + 4, at + 8) =~= s.subrange(4, 8));
    assert(s.subrange(0, 4) =~= spec_u32_bytes(lo));
    assert(s.subrange(4, 8) =~= spec_u32_bytes(hi));
    lemma_u32_round_trip(b, at, lo);
    lemma_u32_round_trip(b, at + 4, hi);
}

} // verus!
