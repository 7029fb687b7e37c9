//! Little-endian encoding of the `u64` sequence number.
use vstd::prelude::*;
use vstd::arithmetic::power::pow;

verus! {

/// The eight little-endian bytes of `v`, least significant byte first.
pub open spec fn u64_le_bytes(v: u64) -> Seq<u8> {
    let q1 = v / 256;
    let q2 = q1 / 256;
    let q3 = q2 / 256;
    let q4 = q3 / 256;
    let q5 = q4 / 256;
    let q6 = q5 / 256;
    let q7 = q6 / 256;
    seq![
        (v % 256) as u8,
        (q1 % 256) as u8,
        (q2 % 256) as u8,
        (q3 % 256) as u8,
        (q4 % 256) as u8,
        (q5 % 256) as u8,
        (q6 % 256) as u8,
        (q7 % 256) as u8,
    ]
}

/// The four little-endian bytes of `v`, least significant byte first.
pub open spec fn u32_le_bytes(v: u32) -> Seq<u8> {
    let q1 = v / 256;
    let q2 = q1 / 256;
    let q3 = q2 / 256;
    seq![(v % 256) as u8, (q1 % 256) as u8, (q2 % 256) as u8, (q3 % 256) as u8]
}

/// The number that the first eight bytes of `b` denote, read little-endian.
pub open spec fn u64_from_le_bytes(b: Seq<u8>) -> int
    recommends
        b.len() >= 8,
{
    b[0] + 256 * (b[1] + 256 * (b[2] + 256 * (b[3] + 256 * (b[4] + 256 * (b[5] + 256 * (b[6]
        + 256 * b[7]))))))
}

/// Reading back the bytes of a number gives the number.
pub proof fn lemma_u64_le_value_roundtrip(v: u64)
    ensures
        u64_from_le_bytes(u64_le_bytes(v)) == v,
{
}

/// Splitting off the low byte of `d + 256 * n`.
proof fn lemma_split_low_byte(d: int, n: int)
    requires
        0 <= d < 256,
        0 <= n,
    ensures
        (d + 256 * n) % 256 == d,
        (d + 256 * n) / 256 == n,
{
    assert((d + 256 * n) % 256 == d && (d + 256 * n) / 256 == n) by (nonlinear_arith)
        requires
            0 <= d < 256,
            0 <= n,
    ;
}

/// Eight bytes denote a number below 2^64, and writing that number gives the bytes back.
pub proof fn lemma_u64_le_bytes_roundtrip(b: Seq<u8>)
    requires
        b.len() == 8,
    ensures
        0 <= u64_from_le_bytes(b) <= u64::MAX,
        u64_le_bytes(u64_from_le_bytes(b) as u64) =~= b,
{
    let n7 = b[7] as int;
    let n6 = b[6] + 256 * n7;
    let n5 = b[5] + 256 * n6;
    let n4 = b[4] + 256 * n5;
    let n3 = b[3] + 256 * n4;
    let n2 = b[2] + 256 * n3;
    let n1 = b[1] + 256 * n2;
    let n0 = b[0] + 256 * n1;
    assert(n0 == u64_from_le_bytes(b));
    lemma_split_low_byte(b[6] as int, n7);
    lemma_split_low_byte(b[5] as int, n6);
    lemma_split_low_byte(b[4] as int, n5);
    lemma_split_low_byte(b[3] as int, n4);
    lemma_split_low_byte(b[2] as int, n3);
    lemma_split_low_byte(b[1] as int, n2);
    lemma_split_low_byte(b[0] as int, n1);
    assert(n7 % 256 == n7);
}

/// The powers of 256 that weigh the bytes of a `u64`.
proof fn lemma_powers_of_256()
    ensures
        pow(256, 0) == 1,
        pow(256, 1) == 256,
        pow(256, 2) == 65536,
        pow(256, 3) == 16777216,
        pow(256, 4) == 4294967296,
        pow(256, 5) == 1099511627776,
        pow(256, 6) == 281474976710656,
        pow(256, 7) == 72057594037927936,
{
    reveal_with_fuel(pow, 9);
}

/// Byte `i` of the little-endian bytes of `v` is its `i`-th base-256 digit:
/// `v` divided by `256^i`, modulo 256.
pub proof fn lemma_u64_le_bytes_digits(v: u64)
    ensures
        u64_le_bytes(v).len() == 8,
        forall|i: int|
            0 <= i < 8 ==> #[trigger] u64_le_bytes(v)[i] == (v as int / pow(256, i as nat)) % 256,
{
    lemma_powers_of_256();
    let x = v as int;
    vstd::arithmetic::div_mod::lemma_div_denominator(x, 256, 256);
    vstd::arithmetic::div_mod::lemma_div_denominator(x, 65536, 256);
    vstd::arithmetic::div_mod::lemma_div_denominator(x, 16777216, 256);
    vstd::arithmetic::div_mod::lemma_div_denominator(x, 4294967296, 256);
    vstd::arithmetic::div_mod::lemma_div_denominator(x, 1099511627776, 256);
    vstd::arithmetic::div_mod::lemma_div_denominator(x, 281474976710656, 256);
    assert forall|i: int| 0 <= i < 8 implies #[trigger] u64_le_bytes(v)[i] == (v as int / pow(
        256,
        i as nat,
    )) % 256 by {
        if i == 0 {
        } else if i == 1 {
        } else if i == 2 {
        } else if i == 3 {
        } else if i == 4 {
        } else if i == 5 {
        } else if i == 6 {
        } else {
        }
    }
}

/// Byte `i` of the little-endian bytes of a `u32` is its `i`-th base-256
/// digit.
pub proof fn lemma_u32_le_bytes_digits(v: u32)
    ensures
        u32_le_bytes(v).len() == 4,
        forall|i: int|
            0 <= i < 4 ==> #[trigger] u32_le_bytes(v)[i] == (v as int / pow(256, i as nat)) % 256,
{
    lemma_powers_of_256();
    let x = v as int;
    vstd::arithmetic::div_mod::lemma_div_denominator(x, 256, 256);
    vstd::arithmetic::div_mod::lemma_div_denominator(x, 65536, 256);
    assert forall|i: int| 0 <= i < 4 implies #[trigger] u32_le_bytes(v)[i] == (v as int / pow(
        256,
        i as nat,
    )) % 256 by {
        if i == 0 {
        } else if i == 1 {
        } else if i == 2 {
        } else {
        }
    }
}

/// The number eight bytes denote, read little-endian, is the sum of each
/// byte `i` weighed by `256^i`.
pub proof fn lemma_u64_from_le_bytes_sum(b: Seq<u8>)
    requires
        b.len() >= 8,
    ensures
        u64_from_le_bytes(b) == b[0] * pow(256, 0) + b[1] * pow(256, 1) + b[2] * pow(256, 2) + b[3]
            * pow(256, 3) + b[4] * pow(256, 4) + b[5] * pow(256, 5) + b[6] * pow(256, 6) + b[7]
            * pow(256, 7),
{
    lemma_powers_of_256();
}

/// Appends the little-endian bytes of `v` to `out`.
pub(crate) fn push_u64_le(out: &mut Vec<u8>, v: u64)
    ensures
        final(out)@ == old(out)@ + u64_le_bytes(v),
{
    let q1 = v / 256;
    let q2 = q1 / 256;
    let q3 = q2 / 256;
    let q4 = q3 / 256;
    let q5 = q4 / 256;
    let q6 = q5 / 256;
    let q7 = q6 / 256;
    out.push((v % 256) as u8);
    out.push((q1 % 256) as u8);
    out.push((q2 % 256) as u8);
    out.push((q3 % 256) as u8);
    out.push((q4 % 256) as u8);
    out.push((q5 % 256) as u8);
    out.push((q6 % 256) as u8);
    out.push((q7 % 256) as u8);
    assert(final(out)@ =~= old(out)@ + u64_le_bytes(v));
}

/// Reads the `u64` whose little-endian bytes open `data`.
pub(crate) fn read_u64_le(data: &[u8]) -> (v: u64)
    requires
        data@.len() >= 8,
    ensures
        v == u64_from_le_bytes(data@),
{
    let mut acc: u64 = data[7] as u64;
    acc = data[6] as u64 + 256 * acc;
    acc = data[5] as u64 + 256 * acc;
    acc = data[4] as u64 + 256 * acc;
    acc = data[3] as u64 + 256 * acc;
    acc = data[2] as u64 + 256 * acc;
    acc = data[1] as u64 + 256 * acc;
    acc = data[0] as u64 + 256 * acc;
    acc
}

} // verus!
