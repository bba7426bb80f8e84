//! The `USN_RECORD_V2`, `USN_RECORD_V3` and `USN_RECORD_V4` structures and their
//! decoding from the bytes of a change journal.
use crate::endian::{
    i64_at, read_i64_at, read_u128_at, read_u16_at, read_u32_at, read_u64_at, u128_at, u16_at,
    u32_at, u64_at,
};
use crate::error::{RecordFault, UsnError};
use crate::flags::{
    spec_file_attributes, spec_reason, spec_source_info, FileAttributes, Reason, SourceInfo,
};
use crate::reference::{mft_reference_from_u64, spec_mft_reference, MftReference, Ntfs128Reference};
use encoding::all::UTF_16LE;
use encoding::DecoderTrap;
use encoding::Encoding;
use vstd::prelude::*;

verus! {

/// The size of the fixed part of a `USN_RECORD_V2`; the file name follows it.
pub const V2_FIXED_LEN: usize = 60usize;

/// The size of the fixed part of a `USN_RECORD_V3`; the file name follows it.
pub const V3_FIXED_LEN: usize = 76usize;

/// The size of the fixed part of a `USN_RECORD_V4`; the extents follow it.
pub const V4_FIXED_LEN: usize = 64usize;

/// The size of one `USN_RECORD_EXTENT`.
pub const EXTENT_LEN: usize = 16usize;

/// The largest record length field that a record may carry.
pub const MAX_RECORD_LENGTH: u32 = 1024u32;

/// A decoded result, with the value taken by its view.
pub open spec fn view_result<T: View>(r: Result<T, UsnError>) -> Result<T::V, UsnError> {
    match r {
        Ok(v) => Ok(v@),
        Err(e) => Err(e),
    }
}

/// What `encoding`'s UTF-16LE decoder makes of `bytes` when it skips malformed input.
pub uninterp spec fn utf16le_decode_ignore(bytes: Seq<u8>) -> Seq<char>;

/// Decodes `bytes` as UTF-16, least significant byte first, skipping what is malformed.
///
/// Calls `encoding::all::UTF_16LE.decode(bytes, DecoderTrap::Ignore)`. Its result is a
/// function of the bytes alone and is named by `utf16le_decode_ignore`. Under
/// `DecoderTrap::Ignore` the trap answers `true` for every error, so `decode_to` never
/// returns `Err`; the default taken for an `Err` is never produced.
#[verifier::external_body]
fn decode_utf16le(bytes: &[u8]) -> (r: String)
    ensures
        r@ == utf16le_decode_ignore(bytes@),
{
    UTF_16LE.decode(bytes, DecoderTrap::Ignore).unwrap_or_default()
}

/// The error for a malformed header of a record of version `major` (2 or 3).
pub open spec fn header_fault(major: u16, fault: RecordFault) -> UsnError {
    if major == 2 {
        UsnError::InvalidV2Record(fault)
    } else {
        UsnError::InvalidRecord(fault)
    }
}

/// The checks that a version 2 or 3 record passes, in the order in which its fields
/// are read: the record length, the major and minor versions, then the presence of the
/// fixed part (`fixed` bytes) and of the file name. On success, the file name length.
pub open spec fn spec_named_layout(s: Seq<u8>, major: u16, fixed: int) -> Result<u16, UsnError> {
    if s.len() < 4 {
        Err(UsnError::UnexpectedEndOfInput)
    } else if u32_at(s, 0) == 0 {
        Err(header_fault(major, RecordFault::ZeroLength))
    } else if u32_at(s, 0) > MAX_RECORD_LENGTH {
        Err(header_fault(major, RecordFault::LengthOver1024))
    } else if s.len() < 6 {
        Err(UsnError::UnexpectedEndOfInput)
    } else if u16_at(s, 4) != major {
        Err(header_fault(major, RecordFault::MajorVersionNot(major)))
    } else if s.len() < 8 {
        Err(UsnError::UnexpectedEndOfInput)
    } else if u16_at(s, 6) != 0 {
        Err(header_fault(major, RecordFault::MinorVersionNotZero))
    } else if s.len() < fixed || s.len() < fixed + u16_at(s, fixed - 4) {
        Err(UsnError::UnexpectedEndOfInput)
    } else {
        Ok(u16_at(s, fixed - 4))
    }
}

/// The bytes of the file name of a version 2 or 3 record.
pub open spec fn spec_name_bytes(s: Seq<u8>, fixed: int) -> Seq<u8> {
    s.subrange(fixed, fixed + u16_at(s, fixed - 4))
}

/// Runs the checks of `spec_named_layout`.
fn named_layout(buffer: &[u8], major: u16, fixed: usize) -> (r: Result<u16, UsnError>)
    requires
        8 <= fixed <= 100,
    ensures
        r == spec_named_layout(buffer@, major, fixed as int),
{
    let len: usize = buffer.len();
    if len < 4 {
        return Err(UsnError::UnexpectedEndOfInput);
    }
    let record_length: u32 = read_u32_at(buffer, 0);
    if record_length == 0 {
        return Err(if major == 2 {
            UsnError::InvalidV2Record(RecordFault::ZeroLength)
        } else {
            UsnError::InvalidRecord(RecordFault::ZeroLength)
        });
    }
    if record_length > MAX_RECORD_LENGTH {
        return Err(if major == 2 {
            UsnError::InvalidV2Record(RecordFault::LengthOver1024)
        } else {
            UsnError::InvalidRecord(RecordFault::LengthOver1024)
        });
    }
    if len < 6 {
        return Err(UsnError::UnexpectedEndOfInput);
    }
    let major_version: u16 = read_u16_at(buffer, 4);
    if major_version != major {
        return Err(if major == 2 {
            UsnError::InvalidV2Record(RecordFault::MajorVersionNot(major))
        } else {
            UsnError::InvalidRecord(RecordFault::MajorVersionNot(major))
        });
    }
    if len < 8 {
        return Err(UsnError::UnexpectedEndOfInput);
    }
    let minor_version: u16 = read_u16_at(buffer, 6);
    if minor_version != 0 {
        return Err(if major == 2 {
            UsnError::InvalidV2Record(RecordFault::MinorVersionNotZero)
        } else {
            UsnError::InvalidRecord(RecordFault::MinorVersionNotZero)
        });
    }
    if len < fixed {
        return Err(UsnError::UnexpectedEndOfInput);
    }
    let name_length: u16 = read_u16_at(buffer, fixed - 4);
    if len < fixed + name_length as usize {
        return Err(UsnError::UnexpectedEndOfInput);
    }
    Ok(name_length)
}

/// A `USN_RECORD_V2` structure.
#[derive(Debug)]
pub struct UsnRecordV2 {
    pub record_length: u32,
    pub major_version: u16,
    pub minor_version: u16,
    pub file_reference: MftReference,
    pub parent_reference: MftReference,
    pub usn: u64,
    /// A `FILETIME`: 100-nanosecond intervals since 1601-01-01 UTC.
    pub timestamp: u64,
    pub reason: Reason,
    pub source_info: SourceInfo,
    pub security_id: u32,
    pub file_attributes: FileAttributes,
    pub file_name_length: u16,
    pub file_name_offset: u16,
    pub file_name: String,
}

/// A `USN_RECORD_V2` with its file name as a sequence of characters.
pub struct UsnRecordV2View {
    pub record_length: u32,
    pub major_version: u16,
    pub minor_version: u16,
    pub file_reference: MftReference,
    pub parent_reference: MftReference,
    pub usn: u64,
    pub timestamp: u64,
    pub reason: Reason,
    pub source_info: SourceInfo,
    pub security_id: u32,
    pub file_attributes: FileAttributes,
    pub file_name_length: u16,
    pub file_name_offset: u16,
    pub file_name: Seq<char>,
}

impl View for UsnRecordV2 {
    type V = UsnRecordV2View;

    open spec fn view(&self) -> UsnRecordV2View {
        UsnRecordV2View {
            record_length: self.record_length,
            major_version: self.major_version,
            minor_version: self.minor_version,
            file_reference: self.file_reference,
            parent_reference: self.parent_reference,
            usn: self.usn,
            timestamp: self.timestamp,
            reason: self.reason,
            source_info: self.source_info,
            security_id: self.security_id,
            file_attributes: self.file_attributes,
            file_name_length: self.file_name_length,
            file_name_offset: self.file_name_offset,
            file_name: self.file_name@,
        }
    }
}

/// The `USN_RECORD_V2` in `s`, with `name` for its file name.
pub open spec fn spec_v2_with_name(s: Seq<u8>, name: Seq<char>) -> Result<UsnRecordV2View, UsnError> {
    match spec_named_layout(s, 2, V2_FIXED_LEN as int) {
        Err(e) => Err(e),
        Ok(name_length) => Ok(
            UsnRecordV2View {
                record_length: u32_at(s, 0),
                major_version: u16_at(s, 4),
                minor_version: u16_at(s, 6),
                file_reference: spec_mft_reference(u64_at(s, 8)),
                parent_reference: spec_mft_reference(u64_at(s, 16)),
                usn: u64_at(s, 24),
                timestamp: u64_at(s, 32),
                reason: spec_reason(u32_at(s, 40)),
                source_info: spec_source_info(u32_at(s, 44)),
                security_id: u32_at(s, 48),
                file_attributes: spec_file_attributes(u32_at(s, 52)),
                file_name_length: name_length,
                file_name_offset: u16_at(s, 58),
                file_name: name,
            },
        ),
    }
}

/// The `USN_RECORD_V2` at the start of `s`.
pub open spec fn spec_parse_v2(s: Seq<u8>) -> Result<UsnRecordV2View, UsnError> {
    spec_v2_with_name(s, utf16le_decode_ignore(spec_name_bytes(s, V2_FIXED_LEN as int)))
}

impl UsnRecordV2 {
    /// Decodes the `USN_RECORD_V2` at the start of `buffer`, with `file_name` taken as
    /// the decoding of its file name bytes.
    pub fn with_decoded_name(buffer: &[u8], file_name: String) -> (res: Result<UsnRecordV2, UsnError>)
        ensures
            view_result(res) == spec_v2_with_name(buffer@, file_name@),
    {
        let file_name_length: u16 = match named_layout(buffer, 2, V2_FIXED_LEN) {
            Ok(n) => n,
            Err(e) => return Err(e),
        };
        let record_length: u32 = read_u32_at(buffer, 0);
        let major_version: u16 = read_u16_at(buffer, 4);
        let minor_version: u16 = read_u16_at(buffer, 6);
        let file_reference = mft_reference_from_u64(read_u64_at(buffer, 8));
        let parent_reference = mft_reference_from_u64(read_u64_at(buffer, 16));
        let usn: u64 = read_u64_at(buffer, 24);
        let timestamp: u64 = read_u64_at(buffer, 32);
        let reason = Reason::from_bits_truncate(read_u32_at(buffer, 40));
        let source_info = SourceInfo::from_bits_truncate(read_u32_at(buffer, 44));
        let security_id: u32 = read_u32_at(buffer, 48);
        let file_attributes = FileAttributes::from_bits_truncate(read_u32_at(buffer, 52));
        let file_name_offset: u16 = read_u16_at(buffer, 58);
        Ok(
            UsnRecordV2 {
                record_length,
                major_version,
                minor_version,
                file_reference,
                parent_reference,
                usn,
                timestamp,
                reason,
                source_info,
                security_id,
                file_attributes,
                file_name_length,
                file_name_offset,
                file_name,
            },
        )
    }

    /// Decodes the `USN_RECORD_V2` at the start of `buffer`.
    ///
    /// Fails with `InvalidV2Record` when the record length is 0 or above 1024, or the
    /// major version is not 2, or the minor version is not 0; with
    /// `UnexpectedEndOfInput` when `buffer` ends before a field that is read. The
    /// checks and reads happen in the order of the fields.
    pub fn new(buffer: &[u8]) -> (res: Result<UsnRecordV2, UsnError>)
        ensures
            view_result(res) == spec_parse_v2(buffer@),
    {
        match named_layout(buffer, 2, V2_FIXED_LEN) {
            Ok(n) => {
                let name_bytes = vstd::slice::slice_subrange(buffer, V2_FIXED_LEN, V2_FIXED_LEN + n as usize);
                let file_name = decode_utf16le(name_bytes);
                Self::with_decoded_name(buffer, file_name)
            },
            Err(e) => Err(e),
        }
    }
}

/// A `USN_RECORD_V3` structure.
#[derive(Debug)]
pub struct UsnRecordV3 {
    pub record_length: u32,
    pub major_version: u16,
    pub minor_version: u16,
    pub file_reference: Ntfs128Reference,
    pub parent_reference: Ntfs128Reference,
    pub usn: u64,
    /// A `FILETIME`: 100-nanosecond intervals since 1601-01-01 UTC.
    pub timestamp: u64,
    pub reason: Reason,
    pub source_info: SourceInfo,
    pub security_id: u32,
    pub file_attributes: FileAttributes,
    pub file_name_length: u16,
    pub file_name_offset: u16,
    pub file_name: String,
}

/// A `USN_RECORD_V3` with its file references as numbers and its file name as a
/// sequence of characters.
pub struct UsnRecordV3View {
    pub record_length: u32,
    pub major_version: u16,
    pub minor_version: u16,
    pub file_reference: u128,
    pub parent_reference: u128,
    pub usn: u64,
    pub timestamp: u64,
    pub reason: Reason,
    pub source_info: SourceInfo,
    pub security_id: u32,
    pub file_attributes: FileAttributes,
    pub file_name_length: u16,
    pub file_name_offset: u16,
    pub file_name: Seq<char>,
}

impl View for UsnRecordV3 {
    type V = UsnRecordV3View;

    open spec fn view(&self) -> UsnRecordV3View {
        UsnRecordV3View {
            record_length: self.record_length,
            major_version: self.major_version,
            minor_version: self.minor_version,
            file_reference: self.file_reference.0,
            parent_reference: self.parent_reference.0,
            usn: self.usn,
            timestamp: self.timestamp,
            reason: self.reason,
            source_info: self.source_info,
            security_id: self.security_id,
            file_attributes: self.file_attributes,
            file_name_length: self.file_name_length,
            file_name_offset: self.file_name_offset,
            file_name: self.file_name@,
        }
    }
}

/// The `USN_RECORD_V3` in `s`, with `name` for its file name.
pub open spec fn spec_v3_with_name(s: Seq<u8>, name: Seq<char>) -> Result<UsnRecordV3View, UsnError> {
    match spec_named_layout(s, 3, V3_FIXED_LEN as int) {
        Err(e) => Err(e),
        Ok(name_length) => Ok(
            UsnRecordV3View {
                record_length: u32_at(s, 0),
                major_version: u16_at(s, 4),
                minor_version: u16_at(s, 6),
                file_reference: u128_at(s, 8),
                parent_reference: u128_at(s, 24),
                usn: u64_at(s, 40),
                timestamp: u64_at(s, 48),
                reason: spec_reason(u32_at(s, 56)),
                source_info: spec_source_info(u32_at(s, 60)),
                security_id: u32_at(s, 64),
                file_attributes: spec_file_attributes(u32_at(s, 68)),
                file_name_length: name_length,
                file_name_offset: u16_at(s, 74),
                file_name: name,
            },
        ),
    }
}

/// The `USN_RECORD_V3` at the start of `s`.
pub open spec fn spec_parse_v3(s: Seq<u8>) -> Result<UsnRecordV3View, UsnError> {
    spec_v3_with_name(s, utf16le_decode_ignore(spec_name_bytes(s, V3_FIXED_LEN as int)))
}

impl UsnRecordV3 {
    /// Decodes the `USN_RECORD_V3` at the start of `buffer`, with `file_name` taken as
    /// the decoding of its file name bytes.
    pub fn with_decoded_name(buffer: &[u8], file_name: String) -> (res: Result<UsnRecordV3, UsnError>)
        ensures
            view_result(res) == spec_v3_with_name(buffer@, file_name@),
    {
        let file_name_length: u16 = match named_layout(buffer, 3, V3_FIXED_LEN) {
            Ok(n) => n,
            Err(e) => return Err(e),
        };
        let record_length: u32 = read_u32_at(buffer, 0);
        let major_version: u16 = read_u16_at(buffer, 4);
        let minor_version: u16 = read_u16_at(buffer, 6);
        let file_reference = Ntfs128Reference(read_u128_at(buffer, 8));
        let parent_reference = Ntfs128Reference(read_u128_at(buffer, 24));
        let usn: u64 = read_u64_at(buffer, 40);
        let timestamp: u64 = read_u64_at(buffer, 48);
        let reason = Reason::from_bits_truncate(read_u32_at(buffer, 56));
        let source_info = SourceInfo::from_bits_truncate(read_u32_at(buffer, 60));
        let security_id: u32 = read_u32_at(buffer, 64);
        let file_attributes = FileAttributes::from_bits_truncate(read_u32_at(buffer, 68));
        let file_name_offset: u16 = read_u16_at(buffer, 74);
        Ok(
            UsnRecordV3 {
                record_length,
                major_version,
                minor_version,
                file_reference,
                parent_reference,
                usn,
                timestamp,
                reason,
                source_info,
                security_id,
                file_attributes,
                file_name_length,
                file_name_offset,
                file_name,
            },
        )
    }

    /// Decodes the `USN_RECORD_V3` at the start of `buffer`.
    ///
    /// Fails with `InvalidRecord` when the record length is 0 or above 1024, or the
    /// major version is not 3, or the minor version is not 0; with
    /// `UnexpectedEndOfInput` when `buffer` ends before a field that is read. The
    /// checks and reads happen in the order of the fields.
    pub fn new(buffer: &[u8]) -> (res: Result<UsnRecordV3, UsnError>)
        ensures
            view_result(res) == spec_parse_v3(buffer@),
    {
        match named_layout(buffer, 3, V3_FIXED_LEN) {
            Ok(n) => {
                let name_bytes = vstd::slice::slice_subrange(buffer, V3_FIXED_LEN, V3_FIXED_LEN + n as usize);
                let file_name = decode_utf16le(name_bytes);
                Self::with_decoded_name(buffer, file_name)
            },
            Err(e) => Err(e),
        }
    }
}

/// The header shared by the record versions, as `USN_RECORD_V4` carries it.
#[derive(Debug, Clone, Copy, PartialEq, Eq, Structural)]
pub struct UsnRecordCommonHeader {
    pub record_length: u32,
    pub major_version: u16,
    pub minor_version: u16,
}

/// A `USN_RECORD_EXTENT`: a range of the file that changed.
#[derive(Debug, Clone, Copy, PartialEq, Eq, Structural)]
pub struct UsnRecordExtent {
    pub offset: i64,
    pub length: i64,
}

/// A `USN_RECORD_V4` structure.
#[derive(Debug)]
pub struct UsnRecordV4 {
    pub header: UsnRecordCommonHeader,
    pub file_reference: Ntfs128Reference,
    pub parent_reference: Ntfs128Reference,
    pub usn: u64,
    pub reason: Reason,
    pub source_info: SourceInfo,
    pub remaining_extents: u32,
    pub extents: Vec<UsnRecordExtent>,
}

/// A `USN_RECORD_V4` with its file references as numbers and its extents as a sequence.
pub struct UsnRecordV4View {
    pub header: UsnRecordCommonHeader,
    pub file_reference: u128,
    pub parent_reference: u128,
    pub usn: u64,
    pub reason: Reason,
    pub source_info: SourceInfo,
    pub remaining_extents: u32,
    pub extents: Seq<UsnRecordExtent>,
}

impl View for UsnRecordV4 {
    type V = UsnRecordV4View;

    open spec fn view(&self) -> UsnRecordV4View {
        UsnRecordV4View {
            header: self.header,
            file_reference: self.file_reference.0,
            parent_reference: self.parent_reference.0,
            usn: self.usn,
            reason: self.reason,
            source_info: self.source_info,
            remaining_extents: self.remaining_extents,
            extents: self.extents@,
        }
    }
}

/// The checks that a `USN_RECORD_V4` passes before its extents, in the order in which
/// its fields are read: the record length, the major version, then the presence of the
/// fixed part.
pub open spec fn spec_v4_header(s: Seq<u8>) -> Result<(), UsnError> {
    if s.len() < 4 {
        Err(UsnError::UnexpectedEndOfInput)
    } else if u32_at(s, 0) == 0 || u32_at(s, 0) > MAX_RECORD_LENGTH {
        Err(UsnError::InvalidRecord(RecordFault::InvalidLength(u32_at(s, 0))))
    } else if s.len() < 6 {
        Err(UsnError::UnexpectedEndOfInput)
    } else if u16_at(s, 4) != 4 {
        Err(UsnError::InvalidRecord(RecordFault::UnexpectedVersion(u16_at(s, 4))))
    } else if s.len() < V4_FIXED_LEN {
        Err(UsnError::UnexpectedEndOfInput)
    } else {
        Ok(())
    }
}

/// The inputs on which decoding a `USN_RECORD_V4` stops on an extent size other than
/// 16: the fixed part is present and valid and its extent size field is not 16.
pub open spec fn spec_v4_extent_size_rejected(s: Seq<u8>) -> bool {
    spec_v4_header(s) is Ok && u16_at(s, 62) != EXTENT_LEN
}

/// The `i`-th extent of a `USN_RECORD_V4`.
pub open spec fn spec_v4_extent(s: Seq<u8>, i: int) -> UsnRecordExtent {
    UsnRecordExtent {
        offset: i64_at(s, V4_FIXED_LEN + EXTENT_LEN * i),
        length: i64_at(s, V4_FIXED_LEN + EXTENT_LEN * i + 8),
    }
}

/// The `USN_RECORD_V4` at the start of `s`.
pub open spec fn spec_parse_v4(s: Seq<u8>) -> Result<UsnRecordV4View, UsnError> {
    match spec_v4_header(s) {
        Err(e) => Err(e),
        Ok(_) => if s.len() < V4_FIXED_LEN + EXTENT_LEN * u16_at(s, 60) {
            Err(UsnError::UnexpectedEndOfInput)
        } else {
            Ok(
                UsnRecordV4View {
                    header: UsnRecordCommonHeader {
                        record_length: u32_at(s, 0),
                        major_version: u16_at(s, 4),
                        minor_version: u16_at(s, 6),
                    },
                    file_reference: u128_at(s, 8),
                    parent_reference: u128_at(s, 24),
                    usn: u64_at(s, 40),
                    reason: spec_reason(u32_at(s, 48)),
                    source_info: spec_source_info(u32_at(s, 52)),
                    remaining_extents: u32_at(s, 56),
                    extents: Seq::new(u16_at(s, 60) as nat, |i: int| spec_v4_extent(s, i)),
                },
            )
        },
    }
}

impl UsnRecordV4 {
    /// Whether decoding `buffer` as a `USN_RECORD_V4` stays clear of an extent size
    /// other than 16, which this version of the format does not know how to read.
    pub fn extent_size_is_supported(buffer: &[u8]) -> (r: bool)
        ensures
            r == !spec_v4_extent_size_rejected(buffer@),
    {
        let len: usize = buffer.len();
        if len < V4_FIXED_LEN {
            return true;
        }
        let record_length: u32 = read_u32_at(buffer, 0);
        let major_version: u16 = read_u16_at(buffer, 4);
        let extent_size: u16 = read_u16_at(buffer, 62);
        record_length == 0 || record_length > MAX_RECORD_LENGTH || major_version != 4
            || extent_size as usize == EXTENT_LEN
    }

    /// Decodes the `USN_RECORD_V4` at the start of `buffer`.
    ///
    /// Fails with `InvalidRecord` when the record length is 0 or above 1024, or the
    /// major version is not 4; with `UnexpectedEndOfInput` when `buffer` ends before a
    /// field or an extent that is read. Any minor version is accepted. The extents
    /// must be 16 bytes each.
    pub fn new(buffer: &[u8]) -> (res: Result<UsnRecordV4, UsnError>)
        requires
            !spec_v4_extent_size_rejected(buffer@),
        ensures
            view_result(res) == spec_parse_v4(buffer@),
    {
        let len: usize = buffer.len();
        if len < 4 {
            return Err(UsnError::UnexpectedEndOfInput);
        }
        let record_length: u32 = read_u32_at(buffer, 0);
        if record_length == 0 || record_length > MAX_RECORD_LENGTH {
            return Err(UsnError::InvalidRecord(RecordFault::InvalidLength(record_length)));
        }
        if len < 6 {
            return Err(UsnError::UnexpectedEndOfInput);
        }
        let major_version: u16 = read_u16_at(buffer, 4);
        if major_version != 4 {
            return Err(UsnError::InvalidRecord(RecordFault::UnexpectedVersion(major_version)));
        }
        if len < V4_FIXED_LEN {
            return Err(UsnError::UnexpectedEndOfInput);
        }
        let minor_version: u16 = read_u16_at(buffer, 6);
        let file_reference = Ntfs128Reference(read_u128_at(buffer, 8));
        let parent_reference = Ntfs128Reference(read_u128_at(buffer, 24));
        let usn: u64 = read_u64_at(buffer, 40);
        let reason = Reason::from_bits_truncate(read_u32_at(buffer, 48));
        let source_info = SourceInfo::from_bits_truncate(read_u32_at(buffer, 52));
        let remaining_extents: u32 = read_u32_at(buffer, 56);
        let number_of_extents: u16 = read_u16_at(buffer, 60);
        if len < V4_FIXED_LEN + EXTENT_LEN * number_of_extents as usize {
            return Err(UsnError::UnexpectedEndOfInput);
        }
        let mut extents: Vec<UsnRecordExtent> = Vec::with_capacity(number_of_extents as usize);
        let mut i: usize = 0;
        while i < number_of_extents as usize
            invariant
                i <= number_of_extents,
                number_of_extents == u16_at(buffer@, 60),
                len == buffer@.len(),
                V4_FIXED_LEN + EXTENT_LEN * number_of_extents <= len,
                extents@ =~= Seq::new(i as nat, |j: int| spec_v4_extent(buffer@, j)),
            decreases number_of_extents - i,
        {
            let pos: usize = V4_FIXED_LEN + EXTENT_LEN * i;
            let offset: i64 = read_i64_at(buffer, pos);
            let length: i64 = read_i64_at(buffer, pos + 8);
            extents.push(UsnRecordExtent { offset, length });
            i = i + 1;
        }
        Ok(
            UsnRecordV4 {
                header: UsnRecordCommonHeader { record_length, major_version, minor_version },
                file_reference,
                parent_reference,
                usn,
                reason,
                source_info,
                remaining_extents,
                extents,
            },
        )
    }
}

/// A journal record of any of the supported versions.
#[derive(Debug)]
pub enum UsnRecord {
    V2(UsnRecordV2),
    V3(UsnRecordV3),
    V4(UsnRecordV4),
}

/// A journal record of any of the supported versions, by its view.
pub enum UsnRecordView {
    V2(UsnRecordV2View),
    V3(UsnRecordV3View),
    V4(UsnRecordV4View),
}

impl View for UsnRecord {
    type V = UsnRecordView;

    open spec fn view(&self) -> UsnRecordView {
        match self {
            UsnRecord::V2(r) => UsnRecordView::V2(r@),
            UsnRecord::V3(r) => UsnRecordView::V3(r@),
            UsnRecord::V4(r) => UsnRecordView::V4(r@),
        }
    }
}

/// The record of version `version` at the start of `s`.
pub open spec fn spec_parse_record(version: u16, s: Seq<u8>) -> Result<UsnRecordView, UsnError> {
    if version == 2 {
        match spec_parse_v2(s) {
            Ok(r) => Ok(UsnRecordView::V2(r)),
            Err(e) => Err(e),
        }
    } else if version == 3 {
        match spec_parse_v3(s) {
            Ok(r) => Ok(UsnRecordView::V3(r)),
            Err(e) => Err(e),
        }
    } else if version == 4 {
        match spec_parse_v4(s) {
            Ok(r) => Ok(UsnRecordView::V4(r)),
            Err(e) => Err(e),
        }
    } else {
        Err(UsnError::UnsupportedUsnVersion(version))
    }
}

/// The inputs that decoding a record of version `version` cannot handle.
pub open spec fn spec_record_rejected(version: u16, s: Seq<u8>) -> bool {
    version == 4 && spec_v4_extent_size_rejected(s)
}

/// The update sequence number of a record.
pub open spec fn spec_usn(r: UsnRecordView) -> u64 {
    match r {
        UsnRecordView::V2(r) => r.usn,
        UsnRecordView::V3(r) => r.usn,
        UsnRecordView::V4(r) => r.usn,
    }
}

/// The reason bits of a record.
pub open spec fn spec_reason_code(r: UsnRecordView) -> Reason {
    match r {
        UsnRecordView::V2(r) => r.reason,
        UsnRecordView::V3(r) => r.reason,
        UsnRecordView::V4(r) => r.reason,
    }
}

/// The file attributes of a record; version 4 records carry none.
pub open spec fn spec_file_attributes_of(r: UsnRecordView) -> Option<FileAttributes> {
    match r {
        UsnRecordView::V2(r) => Some(r.file_attributes),
        UsnRecordView::V3(r) => Some(r.file_attributes),
        UsnRecordView::V4(r) => None,
    }
}

/// The file name of a record; version 4 records carry none.
pub open spec fn spec_file_name_of(r: UsnRecordView) -> Option<Seq<char>> {
    match r {
        UsnRecordView::V2(r) => Some(r.file_name),
        UsnRecordView::V3(r) => Some(r.file_name),
        UsnRecordView::V4(r) => None,
    }
}

/// The MFT reference held in the low 64 bits of a 128-bit file identifier.
pub open spec fn spec_low_mft_reference(x: u128) -> MftReference {
    spec_mft_reference((x % 0x1_0000_0000_0000_0000) as u64)
}

/// The MFT reference of the file that a record is about.
pub open spec fn spec_file_reference_of(r: UsnRecordView) -> MftReference {
    match r {
        UsnRecordView::V2(r) => r.file_reference,
        UsnRecordView::V3(r) => spec_low_mft_reference(r.file_reference),
        UsnRecordView::V4(r) => spec_low_mft_reference(r.file_reference),
    }
}

/// The MFT reference of the directory that holds the file that a record is about.
pub open spec fn spec_parent_reference_of(r: UsnRecordView) -> MftReference {
    match r {
        UsnRecordView::V2(r) => r.parent_reference,
        UsnRecordView::V3(r) => spec_low_mft_reference(r.parent_reference),
        UsnRecordView::V4(r) => spec_low_mft_reference(r.parent_reference),
    }
}

impl UsnRecord {
    /// Decodes the record of version `version` at the start of `buffer`.
    ///
    /// Fails with `UnsupportedUsnVersion` when `version` is not 2, 3 or 4, and
    /// otherwise as the decoder of that version does.
    pub fn new(version: u16, buffer: &[u8]) -> (res: Result<UsnRecord, UsnError>)
        requires
            !spec_record_rejected(version, buffer@),
        ensures
            view_result(res) == spec_parse_record(version, buffer@),
    {
        if version == 2 {
            match UsnRecordV2::new(buffer) {
                Ok(r) => Ok(UsnRecord::V2(r)),
                Err(e) => Err(e),
            }
        } else if version == 3 {
            match UsnRecordV3::new(buffer) {
                Ok(r) => Ok(UsnRecord::V3(r)),
                Err(e) => Err(e),
            }
        } else if version == 4 {
            match UsnRecordV4::new(buffer) {
                Ok(r) => Ok(UsnRecord::V4(r)),
                Err(e) => Err(e),
            }
        } else {
            Err(UsnError::UnsupportedUsnVersion(version))
        }
    }

    /// The update sequence number.
    pub fn get_usn(&self) -> (r: u64)
        ensures
            r == spec_usn(self@),
    {
        match self {
            UsnRecord::V2(record) => record.usn,
            UsnRecord::V3(record) => record.usn,
            UsnRecord::V4(record) => record.usn,
        }
    }

    /// The file name, for the versions that carry one.
    pub fn get_file_name(&self) -> (r: Option<&str>)
        ensures
            match spec_file_name_of(self@) {
                Some(name) => r matches Some(s) && s@ == name,
                None => r is None,
            },
    {
        match self {
            UsnRecord::V2(record) => Some(record.file_name.as_str()),
            UsnRecord::V3(record) => Some(record.file_name.as_str()),
            UsnRecord::V4(_) => None,
        }
    }

    /// The file attributes, for the versions that carry them.
    pub fn get_file_attributes(&self) -> (r: Option<FileAttributes>)
        ensures
            r == spec_file_attributes_of(self@),
    {
        match self {
            UsnRecord::V2(record) => Some(record.file_attributes),
            UsnRecord::V3(record) => Some(record.file_attributes),
            UsnRecord::V4(_) => None,
        }
    }

    /// The reasons for the change.
    pub fn get_reason_code(&self) -> (r: Reason)
        ensures
            r == spec_reason_code(self@),
    {
        match self {
            UsnRecord::V2(record) => record.reason,
            UsnRecord::V3(record) => record.reason,
            UsnRecord::V4(record) => record.reason,
        }
    }

    /// The MFT reference of the file; for 128-bit identifiers, the one in their low 64 bits.
    pub fn get_file_reference(&self) -> (r: MftReference)
        ensures
            r == spec_file_reference_of(self@),
    {
        match self {
            UsnRecord::V2(record) => record.file_reference,
            UsnRecord::V3(record) => record.file_reference.as_mft_reference(),
            UsnRecord::V4(record) => record.file_reference.as_mft_reference(),
        }
    }

    /// The MFT reference of the parent directory; for 128-bit identifiers, the one in
    /// their low 64 bits.
    pub fn get_parent_reference(&self) -> (r: MftReference)
        ensures
            r == spec_parent_reference_of(self@),
    {
        match self {
            UsnRecord::V2(record) => record.parent_reference,
            UsnRecord::V3(record) => record.parent_reference.as_mft_reference(),
            UsnRecord::V4(record) => record.parent_reference.as_mft_reference(),
        }
    }
}

} // verus!
