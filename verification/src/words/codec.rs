//! Little-endian codecs for the fixed-width integers of the wire format,
//! proved inverse to each other.

use vstd::prelude::*;

verus! {

/// The value of two little-endian bytes.
pub open spec fn spec_u16_from_le(b0: u8, b1: u8) -> u16 {
    (b0 + b1 * 0x100) as u16
}

/// The value of four little-endian bytes.
pub open spec fn spec_u32_from_le(b0: u8, b1: u8, b2: u8, b3: u8) -> u32 {
    (b0 + b1 * 0x100 + b2 * 0x1_0000 + b3 * 0x100_0000) as u32
}

/// The value of eight little-endian bytes.
pub open spec fn spec_u64_from_le(s: Seq<u8>) -> u64
    recommends
        s.len() == 8,
{
    (s[0] + s[1] * 0x100 + s[2] * 0x1_0000 + s[3] * 0x100_0000 + s[4] * 0x1_0000_0000
        + s[5] * 0x100_0000_0000 + s[6] * 0x1_0000_0000_0000 + s[7] * 0x100_0000_0000_0000) as u64
}

/// The two little-endian bytes of a `u16`.
pub open spec fn spec_u16_to_le(v: u16) -> Seq<u8> {
    seq![(v % 0x100) as u8, (v / 0x100) as u8]
}

/// The four little-endian bytes of a `u32`.
pub open spec fn spec_u32_to_le(v: u32) -> Seq<u8> {
    seq![
        (v % 0x100) as u8,
        ((v / 0x100) % 0x100) as u8,
        ((v / 0x1_0000) % 0x100) as u8,
        (v / 0x100_0000) as u8,
    ]
}

/// The eight little-endian bytes of a `u64`.
pub open spec fn spec_u64_to_le(v: u64) -> Seq<u8> {
    seq![
        (v % 0x100) as u8,
        ((v / 0x100) % 0x100) as u8,
        ((v / 0x1_0000) % 0x100) as u8,
        ((v / 0x100_0000) % 0x100) as u8,
        ((v / 0x1_0000_0000) % 0x100) as u8,
        ((v / 0x100_0000_0000) % 0x100) as u8,
        ((v / 0x1_0000_0000_0000) % 0x100) as u8,
        (v / 0x100_0000_0000_0000) as u8,
    ]
}

/// Reading two little-endian bytes undoes writing them.
pub proof fn lemma_u16_le_roundtrip(v: u16)
    ensures
        spec_u16_from_le(spec_u16_to_le(v)[0], spec_u16_to_le(v)[1]) == v,
{
}

/// Writing a `u16` undoes reading one.
pub proof fn lemma_u16_le_bytes_roundtrip(b0: u8, b1: u8)
    ensures
        spec_u16_to_le(spec_u16_from_le(b0, b1)) == seq![b0, b1],
{
    assert(spec_u16_to_le(spec_u16_from_le(b0, b1)) =~= seq![b0, b1]);
}

/// Reading four little-endian bytes undoes writing them.
pub proof fn lemma_u32_le_roundtrip(v: u32)
    ensures
        spec_u32_from_le(
            spec_u32_to_le(v)[0],
            spec_u32_to_le(v)[1],
            spec_u32_to_le(v)[2],
            spec_u32_to_le(v)[3],
        ) == v,
{
}

/// Writing a `u32` undoes reading one.
pub proof fn lemma_u32_le_bytes_roundtrip(b0: u8, b1: u8, b2: u8, b3: u8)
    ensures
        spec_u32_to_le(spec_u32_from_le(b0, b1, b2, b3)) == seq![b0, b1, b2, b3],
{
    assert(spec_u32_to_le(spec_u32_from_le(b0, b1, b2, b3)) =~= seq![b0, b1, b2, b3]);
}

/// Reading eight little-endian bytes undoes writing them.
pub proof fn lemma_u64_le_roundtrip(v: u64)
    ensures
        spec_u64_from_le(spec_u64_to_le(v)) == v,
{
    let q1 = v / 0x100;
    let q2 = v / 0x1_0000;
    let q3 = v / 0x100_0000;
    let q4 = v / 0x1_0000_0000;
    let q5 = v / 0x100_0000_0000;
    let q6 = v / 0x1_0000_0000_0000;
    let q7 = v / 0x100_0000_0000_0000;
    assert(v == v % 0x100 + 0x100 * q1);
    assert(q1 == q1 % 0x100 + 0x100 * (q1 / 0x100));
    assert(q1 / 0x100 == q2) by (nonlinear_arith)
        requires q1 == v / 0x100 && q2 == v / 0x1_0000;
    assert(q2 == q2 % 0x100 + 0x100 * (q2 / 0x100));
    assert(q2 / 0x100 == q3) by (nonlinear_arith)
        requires q2 == v / 0x1_0000 && q3 == v / 0x100_0000;
    assert(q3 == q3 % 0x100 + 0x100 * (q3 / 0x100));
    assert(q3 / 0x100 == q4) by (nonlinear_arith)
        requires q3 == v / 0x100_0000 && q4 == v / 0x1_0000_0000;
    assert(q4 == q4 % 0x100 + 0x100 * (q4 / 0x100));
    assert(q4 / 0x100 == q5) by (nonlinear_arith)
        requires q4 == v / 0x1_0000_0000 && q5 == v / 0x100_0000_0000;
    assert(q5 == q5 % 0x100 + 0x100 * (q5 / 0x100));
    assert(q5 / 0x100 == q6) by (nonlinear_arith)
        requires q5 == v / 0x100_0000_0000 && q6 == v / 0x1_0000_0000_0000;
    assert(q6 == q6 % 0x100 + 0x100 * (q6 / 0x100));
    assert(q6 / 0x100 == q7) by (nonlinear_arith)
        requires q6 == v / 0x1_0000_0000_0000 && q7 == v / 0x100_0000_0000_0000;
    assert(q7 < 0x100);
}

/// Writing a `u64` undoes reading one.
pub proof fn lemma_u64_le_bytes_roundtrip(s: Seq<u8>)
    requires
        s.len() == 8,
    ensures
        spec_u64_to_le(spec_u64_from_le(s)) == s,
{
    let v = spec_u64_from_le(s);
    assert(v == s[0] + s[1] * 0x100 + s[2] * 0x1_0000 + s[3] * 0x100_0000 + s[4] * 0x1_0000_0000
        + s[5] * 0x100_0000_0000 + s[6] * 0x1_0000_0000_0000 + s[7] * 0x100_0000_0000_0000);
    assert(v % 0x100 == s[0] && v / 0x100 == s[1] + s[2] * 0x100 + s[3] * 0x1_0000 + s[4]
        * 0x100_0000 + s[5] * 0x1_0000_0000 + s[6] * 0x100_0000_0000 + s[7]
        * 0x1_0000_0000_0000);
    assert((v / 0x100) % 0x100 == s[1] && v / 0x1_0000 == s[2] + s[3] * 0x100 + s[4] * 0x1_0000
        + s[5] * 0x100_0000 + s[6] * 0x1_0000_0000 + s[7] * 0x100_0000_0000) by (nonlinear_arith)
        requires v == s[0] + s[1] * 0x100 + s[2] * 0x1_0000 + s[3] * 0x100_0000 + s[4]
            * 0x1_0000_0000 + s[5] * 0x100_0000_0000 + s[6] * 0x1_0000_0000_0000 + s[7]
            * 0x100_0000_0000_0000 && s[0] < 0x100 && s[1] < 0x100 && s[2] < 0x100 && s[3] < 0x100
            && s[4] < 0x100 && s[5] < 0x100 && s[6] < 0x100 && s[7] < 0x100;
    assert((v / 0x1_0000) % 0x100 == s[2] && (v / 0x100_0000) == s[3] + s[4] * 0x100 + s[5]
        * 0x1_0000 + s[6] * 0x100_0000 + s[7] * 0x1_0000_0000) by (nonlinear_arith)
        requires v / 0x1_0000 == s[2] + s[3] * 0x100 + s[4] * 0x1_0000 + s[5] * 0x100_0000 + s[6]
            * 0x1_0000_0000 + s[7] * 0x100_0000_0000 && s[2] < 0x100 && s[3] < 0x100 && s[4]
            < 0x100 && s[5] < 0x100 && s[6] < 0x100 && s[7] < 0x100;
    assert((v / 0x100_0000) % 0x100 == s[3] && (v / 0x1_0000_0000) == s[4] + s[5] * 0x100 + s[6]
        * 0x1_0000 + s[7] * 0x100_0000) by (nonlinear_arith)
        requires v / 0x100_0000 == s[3] + s[4] * 0x100 + s[5] * 0x1_0000 + s[6] * 0x100_0000 + s[7]
            * 0x1_0000_0000 && s[3] < 0x100 && s[4] < 0x100 && s[5] < 0x100 && s[6] < 0x100 && s[7]
            < 0x100;
    assert((v / 0x1_0000_0000) % 0x100 == s[4] && (v / 0x100_0000_0000) == s[5] + s[6] * 0x100
        + s[7] * 0x1_0000) by (nonlinear_arith)
        requires v / 0x1_0000_0000 == s[4] + s[5] * 0x100 + s[6] * 0x1_0000 + s[7] * 0x100_0000
            && s[4] < 0x100 && s[5] < 0x100 && s[6] < 0x100 && s[7] < 0x100;
    assert((v / 0x100_0000_0000) % 0x100 == s[5] && (v / 0x1_0000_0000_0000) == s[6] + s[7]
        * 0x100) by (nonlinear_arith)
        requires v / 0x100_0000_0000 == s[5] + s[6] * 0x100 + s[7] * 0x1_0000 && s[5] < 0x100
            && s[6] < 0x100 && s[7] < 0x100;
    assert((v / 0x1_0000_0000_0000) % 0x100 == s[6] && (v / 0x100_0000_0000_0000) == s[7])
        by (nonlinear_arith)
        requires v / 0x1_0000_0000_0000 == s[6] + s[7] * 0x100 && s[6] < 0x100 && s[7] < 0x100;
    assert(spec_u64_to_le(spec_u64_from_le(s)) =~= s);
}

/// Read a `u16` from two little-endian bytes.
pub fn u16_from_le(b0: u8, b1: u8) -> (v: u16)
    ensures
        v == spec_u16_from_le(b0, b1),
{
    b0 as u16 + b1 as u16 * 0x100
}

/// Read a `u32` from four little-endian bytes.
pub fn u32_from_le(b0: u8, b1: u8, b2: u8, b3: u8) -> (v: u32)
    ensures
        v == spec_u32_from_le(b0, b1, b2, b3),
{
    b0 as u32 + b1 as u32 * 0x100 + b2 as u32 * 0x1_0000 + b3 as u32 * 0x100_0000
}

/// Read a `u64` from eight little-endian bytes taken from `b` at `at`.
pub fn u64_from_le(b: &[u8], at: usize) -> (v: u64)
    requires
        at + 8 <= b@.len(),
    ensures
        v == spec_u64_from_le(b@.subrange(at as int, at + 8)),
{
    let v = b[at] as u64 + b[at + 1] as u64 * 0x100 + b[at + 2] as u64 * 0x1_0000 + b[at + 3] as u64
        * 0x100_0000 + b[at + 4] as u64 * 0x1_0000_0000 + b[at + 5] as u64 * 0x100_0000_0000 + b[at
        + 6] as u64 * 0x1_0000_0000_0000 + b[at + 7] as u64 * 0x100_0000_0000_0000;
    proof {
        let s = b@.subrange(at as int, at + 8);
        assert(s[0] == b@[at as int] && s[1] == b@[at + 1] && s[2] == b@[at + 2] && s[3] == b@[at
            + 3] && s[4] == b@[at + 4] && s[5] == b@[at + 5] && s[6] == b@[at + 6] && s[7] == b@[at
            + 7]);
    }
    v
}

/// Append the two little-endian bytes of `v` to `out`.
pub fn push_u16_le(out: &mut Vec<u8>, v: u16)
    ensures
        final(out)@ == old(out)@ + spec_u16_to_le(v),
{
    out.push((v % 0x100) as u8);
    out.push((v / 0x100) as u8);
    proof {
        assert(out@ =~= old(out)@ + spec_u16_to_le(v));
    }
}

/// Append the four little-endian bytes of `v` to `out`.
pub fn push_u32_le(out: &mut Vec<u8>, v: u32)
    ensures
        final(out)@ == old(out)@ + spec_u32_to_le(v),
{
    out.push((v % 0x100) as u8);
    out.push(((v / 0x100) % 0x100) as u8);
    out.push(((v / 0x1_0000) % 0x100) as u8);
    out.push((v / 0x100_0000) as u8);
    proof {
        assert(out@ =~= old(out)@ + spec_u32_to_le(v));
    }
}

/// Append the eight little-endian bytes of `v` to `out`.
pub fn push_u64_le(out: &mut Vec<u8>, v: u64)
    ensures
        final(out)@ == old(out)@ + spec_u64_to_le(v),
{
    out.push((v % 0x100) as u8);
    out.push(((v / 0x100) % 0x100) as u8);
    out.push(((v / 0x1_0000) % 0x100) as u8);
    out.push(((v / 0x100_0000) % 0x100) as u8);
    out.push(((v / 0x1_0000_0000) % 0x100) as u8);
    out.push(((v / 0x100_0000_0000) % 0x100) as u8);
    out.push(((v / 0x1_0000_0000_0000) % 0x100) as u8);
    out.push((v / 0x100_0000_0000_0000) as u8);
    proof {
        assert(out@ =~= old(out)@ + spec_u64_to_le(v));
    }
}

} // verus!
