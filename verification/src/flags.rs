//! The bit sets carried by a journal record: reasons, source information and
//! file attributes. Decoding keeps the known bits and drops the others.
use vstd::prelude::*;

verus! {

/// Every `USN_REASON_*` bit: data overwrite, extend and truncation (`0x1`, `0x2`,
/// `0x4`), the same for named data (`0x10`, `0x20`, `0x40`), file create and delete
/// (`0x100`, `0x200`), extended attribute and security change (`0x400`, `0x800`),
/// rename old and new name (`0x1000`, `0x2000`), indexable and basic info change
/// (`0x4000`, `0x8000`), hard link, compression, encryption, object id change
/// (`0x1_0000` to `0x8_0000`), reparse point, stream, transacted, integrity change
/// (`0x10_0000` to `0x80_0000`), desired storage class change (`0x100_0000`) and
/// close (`0x8000_0000`).
pub const REASON_ALL: u32 = 0x81FF_FF77u32;

/// Every `USN_SOURCE_*` bit: data management, auxiliary data, replication
/// management and client replication management.
pub const SOURCE_INFO_ALL: u32 = 0x0000_000Fu32;

/// Every `FILE_ATTRIBUTE_*` bit: read-only, hidden, system (`0x1` to `0x4`),
/// directory, archive, device, normal (`0x10` to `0x80`), temporary, sparse file,
/// reparse point, compressed (`0x100` to `0x800`), offline, not content indexed,
/// encrypted, integrity stream (`0x1000` to `0x8000`), virtual, no scrub data,
/// recall on open, pinned (`0x1_0000` to `0x8_0000`), unpinned (`0x10_0000`) and
/// recall on data access (`0x40_0000`).
pub const FILE_ATTRIBUTES_ALL: u32 = 0x005F_FFF7u32;

/// The reasons for the changes that a record reports.
#[derive(Debug, Clone, Copy, PartialEq, Eq, Structural)]
pub struct Reason {
    pub bits: u32,
}

/// Where a change that a record reports came from.
#[derive(Debug, Clone, Copy, PartialEq, Eq, Structural)]
pub struct SourceInfo {
    pub bits: u32,
}

/// The attributes of the file that a record is about.
#[derive(Debug, Clone, Copy, PartialEq, Eq, Structural)]
pub struct FileAttributes {
    pub bits: u32,
}

pub open spec fn spec_reason(bits: u32) -> Reason {
    Reason { bits: bits & REASON_ALL }
}

pub open spec fn spec_source_info(bits: u32) -> SourceInfo {
    SourceInfo { bits: bits & SOURCE_INFO_ALL }
}

pub open spec fn spec_file_attributes(bits: u32) -> FileAttributes {
    FileAttributes { bits: bits & FILE_ATTRIBUTES_ALL }
}

impl Reason {
    /// Keeps the bits of `bits` that name a reason and drops the others.
    pub fn from_bits_truncate(bits: u32) -> (r: Reason)
        ensures
            r == spec_reason(bits),
    {
        Reason { bits: bits & REASON_ALL }
    }

    /// The raw bits.
    pub fn bits(&self) -> (r: u32)
        ensures
            r == self.bits,
    {
        self.bits
    }

    /// Whether every bit of `other` is set in `self`.
    pub fn contains(&self, other: Reason) -> (r: bool)
        ensures
            r == (self.bits & other.bits == other.bits),
    {
        self.bits & other.bits == other.bits
    }
}

impl SourceInfo {
    /// Keeps the bits of `bits` that name a source and drops the others.
    pub fn from_bits_truncate(bits: u32) -> (r: SourceInfo)
        ensures
            r == spec_source_info(bits),
    {
        SourceInfo { bits: bits & SOURCE_INFO_ALL }
    }

    /// The raw bits.
    pub fn bits(&self) -> (r: u32)
        ensures
            r == self.bits,
    {
        self.bits
    }

    /// Whether every bit of `other` is set in `self`.
    pub fn contains(&self, other: SourceInfo) -> (r: bool)
        ensures
            r == (self.bits & other.bits == other.bits),
    {
        self.bits & other.bits == other.bits
    }
}

impl FileAttributes {
    /// Keeps the bits of `bits` that name an attribute and drops the others.
    pub fn from_bits_truncate(bits: u32) -> (r: FileAttributes)
        ensures
            r == spec_file_attributes(bits),
    {
        FileAttributes { bits: bits & FILE_ATTRIBUTES_ALL }
    }

    /// The raw bits.
    pub fn bits(&self) -> (r: u32)
        ensures
            r == self.bits,
    {
        self.bits
    }

    /// Whether every bit of `other` is set in `self`.
    pub fn contains(&self, other: FileAttributes) -> (r: bool)
        ensures
            r == (self.bits & other.bits == other.bits),
    {
        self.bits & other.bits == other.bits
    }
}

/// Truncation keeps exactly the known bits (those of the documented masks) and drops
/// the others, and truncating again changes nothing: a decoded set is already free of
/// unknown bits.
pub proof fn lemma_truncation_keeps_known_bits(bits: u32)
    ensures
        spec_reason(bits).bits == bits & 0x81FF_FF77u32,
        spec_source_info(bits).bits == bits & 0x0000_000Fu32,
        spec_file_attributes(bits).bits == bits & 0x005F_FFF7u32,
        spec_reason(bits).bits & !REASON_ALL == 0,
        spec_reason(spec_reason(bits).bits) == spec_reason(bits),
        spec_source_info(bits).bits & !SOURCE_INFO_ALL == 0,
        spec_source_info(spec_source_info(bits).bits) == spec_source_info(bits),
        spec_file_attributes(bits).bits & !FILE_ATTRIBUTES_ALL == 0,
        spec_file_attributes(spec_file_attributes(bits).bits) == spec_file_attributes(bits),
{
    assert(bits & 0x81FF_FF77u32 & !0x81FF_FF77u32 == 0) by (bit_vector);
    assert((bits & 0x81FF_FF77u32) & 0x81FF_FF77u32 == bits & 0x81FF_FF77u32) by (bit_vector);
    assert(bits & 0x0000_000Fu32 & !0x0000_000Fu32 == 0) by (bit_vector);
    assert((bits & 0x0000_000Fu32) & 0x0000_000Fu32 == bits & 0x0000_000Fu32) by (bit_vector);
    assert(bits & 0x005F_FFF7u32 & !0x005F_FFF7u32 == 0) by (bit_vector);
    assert((bits & 0x005F_FFF7u32) & 0x005F_FFF7u32 == bits & 0x005F_FFF7u32) by (bit_vector);
}

} // verus!
