//! Little-endian integers as they are stored in journal records.
use byteorder::ByteOrder;
use byteorder::LittleEndian;
use vstd::prelude::*;

verus! {

/// Powers of 256: the weight of the byte at position `n` in a little-endian number.
pub open spec fn pow256(n: nat) -> nat
    decreases n,
{
    if n == 0 {
        1
    } else {
        256 * pow256((n - 1) as nat)
    }
}

/// The unsigned number that the bytes of `s` encode, least significant byte first.
pub open spec fn le_value(s: Seq<u8>) -> nat
    decreases s.len(),
{
    if s.len() == 0 {
        0
    } else {
        s[0] as nat + 256 * le_value(s.drop_first())
    }
}

/// The two's complement reading of a 64-bit pattern.
pub open spec fn signed64(v: nat) -> int {
    if v < 0x8000_0000_0000_0000 {
        v as int
    } else {
        v - 0x1_0000_0000_0000_0000
    }
}

/// The unsigned number held by the `n` bytes of `s` that start at `pos`.
pub open spec fn le_field(s: Seq<u8>, pos: int, n: int) -> nat {
    le_value(s.subrange(pos, pos + n))
}

pub open spec fn u16_at(s: Seq<u8>, pos: int) -> u16 {
    le_field(s, pos, 2) as u16
}

pub open spec fn u32_at(s: Seq<u8>, pos: int) -> u32 {
    le_field(s, pos, 4) as u32
}

pub open spec fn u64_at(s: Seq<u8>, pos: int) -> u64 {
    le_field(s, pos, 8) as u64
}

pub open spec fn u128_at(s: Seq<u8>, pos: int) -> u128 {
    le_field(s, pos, 16) as u128
}

pub open spec fn i64_at(s: Seq<u8>, pos: int) -> i64 {
    signed64(le_field(s, pos, 8)) as i64
}

/// A little-endian number of `n` bytes is below `256^n`.
pub proof fn lemma_le_value_bound(s: Seq<u8>)
    ensures
        le_value(s) < pow256(s.len()),
    decreases s.len(),
{
    if s.len() > 0 {
        lemma_le_value_bound(s.drop_first());
        assert(pow256(s.len()) == 256 * pow256((s.len() - 1) as nat));
    }
}

/// Splitting the bytes splits the number: the low part comes from the first bytes.
pub proof fn lemma_le_value_concat(a: Seq<u8>, b: Seq<u8>)
    ensures
        le_value(a + b) == le_value(a) + pow256(a.len()) * le_value(b),
    decreases a.len(),
{
    if a.len() == 0 {
        assert(a + b =~= b);
    } else {
        assert((a + b).drop_first() =~= a.drop_first() + b);
        lemma_le_value_concat(a.drop_first(), b);
        let p = pow256((a.len() - 1) as nat);
        let x = le_value(b);
        assert(pow256(a.len()) == 256 * p);
        assert((a + b)[0] == a[0]);
        assert(le_value(a + b) == a[0] as nat + 256 * le_value(a.drop_first() + b));
        assert(256 * (p * x) == (256 * p) * x) by (nonlinear_arith);
    }
}

/// The bytes of `s` that start at `pos` read the same inside any longer input.
pub proof fn lemma_le_field_extend(s: Seq<u8>, t: Seq<u8>, pos: int, n: int)
    requires
        0 <= pos,
        0 <= n,
        pos + n <= s.len(),
    ensures
        le_field(s + t, pos, n) == le_field(s, pos, n),
{
    assert((s + t).subrange(pos, pos + n) =~= s.subrange(pos, pos + n));
}

/// Reads a `u16` from the first two bytes of `buf`, least significant byte first.
///
/// Calls `<byteorder::LittleEndian as ByteOrder>::read_u16`, which panics when the
/// buffer is shorter than two bytes and otherwise returns `u16::from_le_bytes` of them.
#[verifier::external_body]
fn le_u16(buf: &[u8]) -> (r: u16)
    requires
        buf@.len() >= 2,
    ensures
        r as nat == le_value(buf@.subrange(0, 2)),
{
    LittleEndian::read_u16(buf)
}

/// Reads a `u32` from the first four bytes of `buf`, least significant byte first.
///
/// Calls `<byteorder::LittleEndian as ByteOrder>::read_u32`, which panics when the
/// buffer is shorter than four bytes and otherwise returns `u32::from_le_bytes` of them.
#[verifier::external_body]
fn le_u32(buf: &[u8]) -> (r: u32)
    requires
        buf@.len() >= 4,
    ensures
        r as nat == le_value(buf@.subrange(0, 4)),
{
    LittleEndian::read_u32(buf)
}

/// Reads a `u64` from the first eight bytes of `buf`, least significant byte first.
///
/// Calls `<byteorder::LittleEndian as ByteOrder>::read_u64`, which panics when the
/// buffer is shorter than eight bytes and otherwise returns `u64::from_le_bytes` of them.
#[verifier::external_body]
pub(crate) fn le_u64(buf: &[u8]) -> (r: u64)
    requires
        buf@.len() >= 8,
    ensures
        r as nat == le_value(buf@.subrange(0, 8)),
{
    LittleEndian::read_u64(buf)
}

/// Reads a `u128` from the first sixteen bytes of `buf`, least significant byte first.
///
/// Calls `<byteorder::LittleEndian as ByteOrder>::read_u128`, which panics when the
/// buffer is shorter than sixteen bytes and otherwise returns `u128::from_le_bytes` of them.
#[verifier::external_body]
fn le_u128(buf: &[u8]) -> (r: u128)
    requires
        buf@.len() >= 16,
    ensures
        r as nat == le_value(buf@.subrange(0, 16)),
{
    LittleEndian::read_u128(buf)
}

/// Reads an `i64` from the first eight bytes of `buf` in two's complement,
/// least significant byte first.
///
/// Calls `<byteorder::LittleEndian as ByteOrder>::read_i64`, which is `read_u64`
/// reinterpreted as a signed number, and panics when the buffer is shorter than eight bytes.
#[verifier::external_body]
fn le_i64(buf: &[u8]) -> (r: i64)
    requires
        buf@.len() >= 8,
    ensures
        r as int == signed64(le_value(buf@.subrange(0, 8))),
{
    LittleEndian::read_i64(buf)
}

/// Reads the `u16` stored at `pos`.
pub fn read_u16_at(bytes: &[u8], pos: usize) -> (r: u16)
    requires
        pos + 2 <= bytes@.len(),
    ensures
        r == u16_at(bytes@, pos as int),
{
    assert(bytes@.len() == bytes.len());
    let sub = vstd::slice::slice_subrange(bytes, pos, pos + 2);
    assert(sub@.subrange(0, 2) =~= sub@);
    le_u16(sub)
}

/// Reads the `u32` stored at `pos`.
pub fn read_u32_at(bytes: &[u8], pos: usize) -> (r: u32)
    requires
        pos + 4 <= bytes@.len(),
    ensures
        r == u32_at(bytes@, pos as int),
{
    assert(bytes@.len() == bytes.len());
    let sub = vstd::slice::slice_subrange(bytes, pos, pos + 4);
    assert(sub@.subrange(0, 4) =~= sub@);
    le_u32(sub)
}

/// Reads the `u64` stored at `pos`.
pub fn read_u64_at(bytes: &[u8], pos: usize) -> (r: u64)
    requires
        pos + 8 <= bytes@.len(),
    ensures
        r == u64_at(bytes@, pos as int),
{
    assert(bytes@.len() == bytes.len());
    let sub = vstd::slice::slice_subrange(bytes, pos, pos + 8);
    assert(sub@.subrange(0, 8) =~= sub@);
    le_u64(sub)
}

/// Reads the `u128` stored at `pos`.
pub fn read_u128_at(bytes: &[u8], pos: usize) -> (r: u128)
    requires
        pos + 16 <= bytes@.len(),
    ensures
        r == u128_at(bytes@, pos as int),
{
    assert(bytes@.len() == bytes.len());
    let sub = vstd::slice::slice_subrange(bytes, pos, pos + 16);
    assert(sub@.subrange(0, 16) =~= sub@);
    le_u128(sub)
}

/// Reads the `i64` stored at `pos`.
pub fn read_i64_at(bytes: &[u8], pos: usize) -> (r: i64)
    requires
        pos + 8 <= bytes@.len(),
    ensures
        r == i64_at(bytes@, pos as int),
{
    assert(bytes@.len() == bytes.len());
    let sub = vstd::slice::slice_subrange(bytes, pos, pos + 8);
    assert(sub@.subrange(0, 8) =~= sub@);
    le_i64(sub)
}

} // verus!
