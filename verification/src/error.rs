//! Errors raised while decoding journal records.
use vstd::prelude::*;

verus! {

/// What is wrong with the header of a record whose bytes were all present.
#[derive(Debug, Clone, Copy, PartialEq, Eq, Structural)]
pub enum RecordFault {
    /// The record length field is 0.
    ZeroLength,
    /// The record length field is above 1024.
    LengthOver1024,
    /// The major version field is not the version that was asked for (given here).
    MajorVersionNot(u16),
    /// The minor version field is not 0.
    MinorVersionNotZero,
    /// The record length field (given here) is 0 or above 1024.
    InvalidLength(u32),
    /// The major version field (given here) is not the version that was asked for.
    UnexpectedVersion(u16),
}

/// The ways in which decoding a record fails.
#[derive(Debug, Clone, Copy, PartialEq, Eq, Structural)]
pub enum UsnError {
    /// The input ended before a field that had to be read.
    UnexpectedEndOfInput,
    /// A `USN_RECORD_V2` header is malformed.
    InvalidV2Record(RecordFault),
    /// A `USN_RECORD_V3` or `USN_RECORD_V4` header is malformed.
    InvalidRecord(RecordFault),
    /// The requested record version (given here) is not 2, 3 or 4.
    UnsupportedUsnVersion(u16),
}

} // verus!
