//! Little-endian integers as they stand in instruction and account bytes.

use vstd::prelude::*;

verus! {

/// The number that eight little-endian bytes stand for: the first byte
/// counts least.
pub open spec fn u64_from_le(b: Seq<u8>) -> int
    recommends
        b.len() == 8,
{
    b[0] + 0x100 * (b[1] + 0x100 * (b[2] + 0x100 * (b[3] + 0x100 * (b[4] + 0x100 * (b[5] + 0x100
        * (b[6] + 0x100 * b[7]))))))
}

/// The eight little-endian bytes of a number.
pub open spec fn u64_to_le(x: u64) -> Seq<u8> {
    let x1 = x / 0x100;
    let x2 = x1 / 0x100;
    let x3 = x2 / 0x100;
    let x4 = x3 / 0x100;
    let x5 = x4 / 0x100;
    let x6 = x5 / 0x100;
    let x7 = x6 / 0x100;
    seq![
        (x % 0x100) as u8,
        (x1 % 0x100) as u8,
        (x2 % 0x100) as u8,
        (x3 % 0x100) as u8,
        (x4 % 0x100) as u8,
        (x5 % 0x100) as u8,
        (x6 % 0x100) as u8,
        (x7 % 0x100) as u8,
    ]
}

/// Decoding undoes encoding.
pub proof fn lemma_u64_le_roundtrip(x: u64)
    ensures
        u64_to_le(x).len() == 8,
        u64_from_le(u64_to_le(x)) == x,
{
}

/// Eight bytes stand for a number that fits, and encoding it gives them back.
pub proof fn lemma_u64_le_canonical(b: Seq<u8>)
    requires
        b.len() == 8,
    ensures
        0 <= u64_from_le(b) <= u64::MAX,
        u64_to_le(u64_from_le(b) as u64) == b,
{
    let t7 = b[7] as int;
    let t6 = b[6] + 0x100 * t7;
    let t5 = b[5] + 0x100 * t6;
    let t4 = b[4] + 0x100 * t5;
    let t3 = b[3] + 0x100 * t4;
    let t2 = b[2] + 0x100 * t3;
    let t1 = b[1] + 0x100 * t2;
    let t0 = b[0] + 0x100 * t1;
    assert(t0 == u64_from_le(b));
    assert(t0 / 0x100 == t1 && t0 % 0x100 == b[0]);
    assert(t1 / 0x100 == t2 && t1 % 0x100 == b[1]);
    assert(t2 / 0x100 == t3 && t2 % 0x100 == b[2]);
    assert(t3 / 0x100 == t4 && t3 % 0x100 == b[3]);
    assert(t4 / 0x100 == t5 && t4 % 0x100 == b[4]);
    assert(t5 / 0x100 == t6 && t5 % 0x100 == b[5]);
    assert(t6 / 0x100 == t7 && t6 % 0x100 == b[6]);
    assert(u64_to_le(t0 as u64) =~= b);
}

/// Reads the little-endian number in the eight bytes of `data` that begin
/// at `start`.
pub(crate) fn read_u64_le(data: &[u8], start: usize) -> (x: u64)
    requires
        start + 8 <= data.len(),
    ensures
        x == u64_from_le(data@.subrange(start as int, start + 8)),
{
    let mut x: u64 = data[start + 7] as u64;
    x = data[start + 6] as u64 + 0x100 * x;
    x = data[start + 5] as u64 + 0x100 * x;
    x = data[start + 4] as u64 + 0x100 * x;
    x = data[start + 3] as u64 + 0x100 * x;
    x = data[start + 2] as u64 + 0x100 * x;
    x = data[start + 1] as u64 + 0x100 * x;
    x = data[start] as u64 + 0x100 * x;
    x
}

/// Appends the eight little-endian bytes of `x` to `out`.
pub(crate) fn push_u64_le(out: &mut Vec<u8>, x: u64)
    ensures
        final(out)@ == old(out)@ + u64_to_le(x),
{
    let mut rest: u64 = x;
    out.push((rest % 0x100) as u8);
    rest = rest / 0x100;
    out.push((rest % 0x100) as u8);
    rest = rest / 0x100;
    out.push((rest % 0x100) as u8);
    rest = rest / 0x100;
    out.push((rest % 0x100) as u8);
    rest = rest / 0x100;
    out.push((rest % 0x100) as u8);
    rest = rest / 0x100;
    out.push((rest % 0x100) as u8);
    rest = rest / 0x100;
    out.push((rest % 0x100) as u8);
    rest = rest / 0x100;
    out.push((rest % 0x100) as u8);
    assert(out@ =~= old(out)@ + u64_to_le(x));
}

} // verus!
