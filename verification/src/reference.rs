//! File references: the 64-bit MFT reference of `USN_RECORD_V2` and the 128-bit
//! file identifier of `USN_RECORD_V3` and `USN_RECORD_V4`.
use crate::endian::{le_u64, le_value, lemma_le_value_bound, lemma_le_value_concat, pow256};
use vstd::prelude::*;

verus! {

/// An MFT reference: a 48-bit entry number and a 16-bit sequence number.
#[derive(Debug, Clone, Copy, PartialEq, Eq, Structural)]
pub struct MftReference {
    pub entry: u64,
    pub sequence: u16,
}

/// The MFT reference packed in `v`: the low six bytes are the entry, the high two
/// bytes the sequence number.
pub open spec fn spec_mft_reference(v: u64) -> MftReference {
    MftReference { entry: (v % 0x1_0000_0000_0000) as u64, sequence: (v / 0x1_0000_0000_0000) as u16 }
}

/// Splits a packed 64-bit reference into entry and sequence.
///
/// Calls `winstructs::ntfs::mft_reference::MftReference::from(u64)`, which reads the
/// sequence from bytes 6 and 7 of the little-endian encoding of `v` and the entry from
/// the same encoding with those two bytes zeroed; the fields are moved into the
/// library's own `MftReference`.
#[verifier::external_body]
pub(crate) fn mft_reference_from_u64(v: u64) -> (r: MftReference)
    ensures
        r == spec_mft_reference(v),
{
    let m = winstructs::ntfs::mft_reference::MftReference::from(v);
    MftReference { entry: m.entry, sequence: m.sequence }
}

/// The split of a packed reference loses nothing: the entry fits in 48 bits and
/// entry and sequence put back together give the packed value.
pub proof fn lemma_mft_reference_split(v: u64)
    ensures
        spec_mft_reference(v).entry < 0x1_0000_0000_0000,
        spec_mft_reference(v).entry + spec_mft_reference(v).sequence * 0x1_0000_0000_0000 == v,
{
    let d: int = 0x1_0000_0000_0000;
    let x = v as int;
    vstd::arithmetic::div_mod::lemma_fundamental_div_mod(x, d);
    vstd::arithmetic::div_mod::lemma_mod_bound(x, d);
    vstd::arithmetic::div_mod::lemma_div_pos_is_pos(x, d);
    assert(x / d < 0x1_0000) by {
        vstd::arithmetic::div_mod::lemma_div_is_ordered(x, 0x1_0000_0000_0000_0000 - 1, d);
        assert((0x1_0000_0000_0000_0000 - 1) / d == 0xFFFF);
    }
}

/// The MFT reference of a 128-bit identifier is read from its low 64 bits: the entry is
/// the identifier's low 48 bits and the sequence number the 16 bits above them.
pub proof fn lemma_low_bits_reference(x: u128)
    ensures
        spec_mft_reference((x % 0x1_0000_0000_0000_0000) as u64).entry == x % 0x1_0000_0000_0000,
        spec_mft_reference((x % 0x1_0000_0000_0000_0000) as u64).sequence == (x / 0x1_0000_0000_0000)
            % 0x1_0000,
{
    let xi: int = x as int;
    let m: int = 0x1_0000_0000_0000;
    let low: int = xi % 0x1_0000_0000_0000_0000;
    assert(0x1_0000_0000_0000_0000 == m * 0x1_0000);
    // The low 64 bits are the sequence bits above the low 48 bits.
    vstd::arithmetic::div_mod::lemma_breakdown(xi, m, 0x1_0000);
    vstd::arithmetic::div_mod::lemma_mod_bound(xi, m);
    vstd::arithmetic::div_mod::lemma_mod_bound(xi / m, 0x1_0000);
    vstd::arithmetic::div_mod::lemma_div_pos_is_pos(xi, m);
    vstd::arithmetic::div_mod::lemma_fundamental_div_mod_converse(
        low,
        m,
        (xi / m) % 0x1_0000,
        xi % m,
    );
}

/// A 128-bit file identifier (`FILE_ID_128`).
#[derive(Debug)]
pub struct Ntfs128Reference(pub u128);

/// The 16 bytes of `x`, least significant first.
///
/// Calls `u128::to_le_bytes`, documented to return the memory representation of the
/// integer as a byte array in little-endian byte order.
#[verifier::external_body]
fn u128_to_le_bytes(x: u128) -> (r: [u8; 16])
    ensures
        le_value(r@) == x,
{
    x.to_le_bytes()
}

impl Ntfs128Reference {
    /// The identifier as a number.
    pub fn as_u128(&self) -> (r: u128)
        ensures
            r == self.0,
    {
        self.0
    }

    /// The MFT reference held in the low 64 bits of the identifier.
    pub fn as_mft_reference(&self) -> (r: MftReference)
        ensures
            r == spec_mft_reference((self.0 % 0x1_0000_0000_0000_0000) as u64),
    {
        let bytes = u128_to_le_bytes(self.0);
        let slice = vstd::array::array_as_slice(&bytes);
        assert(slice@.len() == 16);
        let low = le_u64(slice);
        proof {
            let s = slice@;
            let a = s.subrange(0, 8);
            let b = s.subrange(8, 16);
            assert(s =~= a + b);
            lemma_le_value_concat(a, b);
            lemma_le_value_bound(a);
            assert(pow256(8) == 0x1_0000_0000_0000_0000) by {
                reveal_with_fuel(pow256, 9);
            }
            let x = self.0 as int;
            let lo = le_value(a) as int;
            let hi = le_value(b) as int;
            assert(x == lo + 0x1_0000_0000_0000_0000 * hi);
            assert(x == lo + 0x1_0000_0000_0000_0000 * hi && 0 <= lo < 0x1_0000_0000_0000_0000 && hi >= 0
                ==> x % 0x1_0000_0000_0000_0000 == lo) by (nonlinear_arith);
        }
        mft_reference_from_u64(low)
    }
}

} // verus!
