//! Properties of record decoding that span inputs and calls.
use crate::endian::{
    le_field, le_value, lemma_le_field_extend, lemma_le_value_bound, lemma_le_value_concat, pow256,
    signed64,
};
use crate::error::{RecordFault, UsnError};
use crate::flags::FileAttributes;
use crate::record::{
    spec_file_attributes_of, spec_file_name_of, spec_file_reference_of, spec_low_mft_reference,
    spec_named_layout, spec_parent_reference_of, spec_parse_record, spec_parse_v2, spec_parse_v3,
    spec_parse_v4, spec_reason_code, spec_v2_with_name, spec_v3_with_name, spec_record_rejected, spec_usn, spec_v4_extent_size_rejected, spec_v4_header, UsnRecordV2View,
    UsnRecordV3View, UsnRecordV4View,
    utf16le_decode_ignore, UsnRecordView, EXTENT_LEN, V2_FIXED_LEN, V3_FIXED_LEN, V4_FIXED_LEN,
};
use crate::reference::spec_mft_reference;
use vstd::prelude::*;

verus! {

/// Every field inside `s` reads the same inside `s + t`.
proof fn lemma_reads_extend(s: Seq<u8>, t: Seq<u8>)
    ensures
        forall|pos: int, n: int|
            0 <= pos && 0 <= n && pos + n <= s.len() ==> #[trigger] le_field(s + t, pos, n)
                == le_field(s, pos, n),
{
    assert forall|pos: int, n: int| 0 <= pos && 0 <= n && pos + n <= s.len() implies #[trigger] le_field(
        s + t,
        pos,
        n,
    ) == le_field(s, pos, n) by {
        lemma_le_field_extend(s, t, pos, n);
    }
}

/// The number of bytes that a decoded record occupies at the start of its input.
pub open spec fn spec_record_size(r: UsnRecordView) -> int {
    match r {
        UsnRecordView::V2(r) => V2_FIXED_LEN + r.file_name_length,
        UsnRecordView::V3(r) => V3_FIXED_LEN + r.file_name_length,
        UsnRecordView::V4(r) => V4_FIXED_LEN + EXTENT_LEN * r.extents.len(),
    }
}

/// The record length field of a decoded record.
pub open spec fn spec_record_length_of(r: UsnRecordView) -> u32 {
    match r {
        UsnRecordView::V2(r) => r.record_length,
        UsnRecordView::V3(r) => r.record_length,
        UsnRecordView::V4(r) => r.header.record_length,
    }
}

/// The major version field of a decoded record.
pub open spec fn spec_major_version_of(r: UsnRecordView) -> u16 {
    match r {
        UsnRecordView::V2(r) => r.major_version,
        UsnRecordView::V3(r) => r.major_version,
        UsnRecordView::V4(r) => r.header.major_version,
    }
}

/// The minor version field of a decoded record.
pub open spec fn spec_minor_version_of(r: UsnRecordView) -> u16 {
    match r {
        UsnRecordView::V2(r) => r.minor_version,
        UsnRecordView::V3(r) => r.minor_version,
        UsnRecordView::V4(r) => r.header.minor_version,
    }
}

/// Bytes after a record do not matter: once the bytes at hand decide the outcome (a
/// record, or an error other than running out of input), appending more bytes gives
/// the same outcome, and does not make the input one that decoding cannot handle.
pub proof fn lemma_parse_ignores_trailing_bytes(version: u16, s: Seq<u8>, t: Seq<u8>)
    requires
        spec_parse_record(version, s) != Err::<UsnRecordView, UsnError>(
            UsnError::UnexpectedEndOfInput,
        ),
    ensures
        spec_parse_record(version, s + t) == spec_parse_record(version, s),
        spec_record_rejected(version, s + t) == spec_record_rejected(version, s),
{
    lemma_reads_extend(s, t);
    let st = s + t;
    if version == 2 {
        assert(spec_named_layout(st, 2, V2_FIXED_LEN as int) == spec_named_layout(s, 2, V2_FIXED_LEN as int));
        if spec_parse_v2(s) is Ok {
            assert(st.subrange(60, 60 + le_field(s, 56, 2) as u16) =~= s.subrange(60, 60 + le_field(s, 56, 2) as u16));
        }
        assert(spec_parse_v2(st) == spec_parse_v2(s));
    } else if version == 3 {
        assert(spec_named_layout(st, 3, V3_FIXED_LEN as int) == spec_named_layout(s, 3, V3_FIXED_LEN as int));
        if spec_parse_v3(s) is Ok {
            assert(st.subrange(76, 76 + le_field(s, 72, 2) as u16) =~= s.subrange(76, 76 + le_field(s, 72, 2) as u16));
        }
        assert(spec_parse_v3(st) == spec_parse_v3(s));
    } else if version == 4 {
        assert(spec_v4_header(st) == spec_v4_header(s));
        if spec_parse_v4(s) is Ok {
            let n: u16 = le_field(s, 60, 2) as u16;
            assert forall|i: int| 0 <= i < n implies #[trigger] crate::record::spec_v4_extent(st, i)
                == crate::record::spec_v4_extent(s, i) by {
                assert(le_field(st, 64 + 16 * i, 8) == le_field(s, 64 + 16 * i, 8));
                assert(le_field(st, 64 + 16 * i + 8, 8) == le_field(s, 64 + 16 * i + 8, 8));
            }
            assert(Seq::new(n as nat, |i: int| crate::record::spec_v4_extent(st, i)) =~= Seq::new(
                n as nat,
                |i: int| crate::record::spec_v4_extent(s, i),
            ));
        }
        assert(spec_parse_v4(st) == spec_parse_v4(s));
    }
}

/// A decoded record passed the header checks: its version is one of 2, 3 and 4 and
/// is the one asked for, both in the kind of record and in its major version field,
/// its record length is between 1 and 1024, and records of
/// versions 2 and 3 have minor version 0.
pub proof fn lemma_parsed_header(version: u16, s: Seq<u8>)
    requires
        spec_parse_record(version, s) is Ok,
    ensures
        ({
            let r = spec_parse_record(version, s)->Ok_0;
            &&& version == 2 || version == 3 || version == 4
            &&& (version == 2 <==> r is V2)
            &&& (version == 3 <==> r is V3)
            &&& (version == 4 <==> r is V4)
            &&& 1 <= spec_record_length_of(r) <= 1024
            &&& spec_major_version_of(r) == version
            &&& version != 4 ==> spec_minor_version_of(r) == 0
        }),
{
}

/// Decoding reads exactly the bytes of the record: the record occupies a prefix of the
/// input, and decoding that prefix alone gives the same record.
pub proof fn lemma_parse_reads_record_size(version: u16, s: Seq<u8>)
    requires
        spec_parse_record(version, s) is Ok,
    ensures
        spec_record_size(spec_parse_record(version, s)->Ok_0) <= s.len(),
        spec_parse_record(
            version,
            s.subrange(0, spec_record_size(spec_parse_record(version, s)->Ok_0)),
        ) == spec_parse_record(version, s),
{
    let k = spec_record_size(spec_parse_record(version, s)->Ok_0);
    let p = s.subrange(0, k);
    let rest = s.subrange(k, s.len() as int);
    assert(p + rest =~= s);
    lemma_reads_extend(p, rest);
    if version == 2 {
        assert(spec_named_layout(p, 2, V2_FIXED_LEN as int) == spec_named_layout(s, 2, V2_FIXED_LEN as int));
    } else if version == 3 {
        assert(spec_named_layout(p, 3, V3_FIXED_LEN as int) == spec_named_layout(s, 3, V3_FIXED_LEN as int));
    } else {
        assert(spec_v4_header(p) == spec_v4_header(s));
    }
    assert(spec_parse_record(version, p) is Ok);
    lemma_parse_ignores_trailing_bytes(version, p, rest);
}

/// The unsigned number stored little-endian in the bytes `a .. b` of `s`.
pub open spec fn bytes_value(s: Seq<u8>, a: int, b: int) -> nat {
    le_value(s.subrange(a, b))
}

/// The powers of 256 at the widths that records use.
proof fn lemma_pow256_widths()
    ensures
        pow256(2) == 0x1_0000,
        pow256(4) == 0x1_0000_0000,
        pow256(6) == 0x1_0000_0000_0000,
        pow256(8) == 0x1_0000_0000_0000_0000,
        pow256(16) == 0x1_0000_0000_0000_0000_0000_0000_0000_0000,
{
    reveal_with_fuel(pow256, 17);
}

/// A field of `n` bytes holds a number below `256^n`.
proof fn lemma_field_bound(s: Seq<u8>, a: int, n: int)
    requires
        0 <= a,
        0 <= n,
        a + n <= s.len(),
    ensures
        bytes_value(s, a, a + n) < pow256(n as nat),
{
    lemma_le_value_bound(s.subrange(a, a + n));
}

/// A field splits into its low `k` bytes and the bytes above them.
proof fn lemma_field_split(s: Seq<u8>, a: int, k: int, n: int)
    requires
        0 <= a,
        0 <= k <= n,
        a + n <= s.len(),
    ensures
        bytes_value(s, a, a + n) == bytes_value(s, a, a + k) + pow256(k as nat) * bytes_value(
            s,
            a + k,
            a + n,
        ),
{
    assert(s.subrange(a, a + n) =~= s.subrange(a, a + k) + s.subrange(a + k, a + n));
    lemma_le_value_concat(s.subrange(a, a + k), s.subrange(a + k, a + n));
}

/// The fields of every width that a record reads, at the offsets given, in range.
proof fn lemma_fields_in_range(s: Seq<u8>)
    ensures
        forall|a: int| 0 <= a && a + 2 <= s.len() ==> #[trigger] bytes_value(s, a, a + 2) < 0x1_0000,
        forall|a: int| 0 <= a && a + 4 <= s.len() ==> #[trigger] bytes_value(s, a, a + 4) < 0x1_0000_0000,
        forall|a: int|
            0 <= a && a + 8 <= s.len() ==> #[trigger] bytes_value(s, a, a + 8)
                < 0x1_0000_0000_0000_0000,
        forall|a: int|
            0 <= a && a + 16 <= s.len() ==> #[trigger] bytes_value(s, a, a + 16)
                < 0x1_0000_0000_0000_0000_0000_0000_0000_0000,
{
    lemma_pow256_widths();
    assert forall|a: int| 0 <= a && a + 2 <= s.len() implies #[trigger] bytes_value(s, a, a + 2) < 0x1_0000 by {
        lemma_field_bound(s, a, 2);
    }
    assert forall|a: int| 0 <= a && a + 4 <= s.len() implies #[trigger] bytes_value(s, a, a + 4)
        < 0x1_0000_0000 by {
        lemma_field_bound(s, a, 4);
    }
    assert forall|a: int| 0 <= a && a + 8 <= s.len() implies #[trigger] bytes_value(s, a, a + 8)
        < 0x1_0000_0000_0000_0000 by {
        lemma_field_bound(s, a, 8);
    }
    assert forall|a: int| 0 <= a && a + 16 <= s.len() implies #[trigger] bytes_value(s, a, a + 16)
        < 0x1_0000_0000_0000_0000_0000_0000_0000_0000 by {
        lemma_field_bound(s, a, 16);
    }
}

/// A packed 64-bit reference at `a`: the entry is its first six bytes, the sequence
/// number its last two.
proof fn lemma_packed_reference(s: Seq<u8>, a: int)
    requires
        0 <= a,
        a + 8 <= s.len(),
    ensures
        spec_mft_reference(bytes_value(s, a, a + 8) as u64).entry == bytes_value(s, a, a + 6),
        spec_mft_reference(bytes_value(s, a, a + 8) as u64).sequence == bytes_value(s, a + 6, a + 8),
{
    lemma_pow256_widths();
    lemma_field_split(s, a, 6, 8);
    lemma_field_bound(s, a, 6);
    lemma_field_bound(s, a + 6, 2);
    lemma_field_bound(s, a, 8);
    let v: int = bytes_value(s, a, a + 8) as int;
    let lo: int = bytes_value(s, a, a + 6) as int;
    let hi: int = bytes_value(s, a + 6, a + 8) as int;
    assert(bytes_value(s, a, a + 8) == bytes_value(s, a, a + 6) + pow256(6) * bytes_value(s, a + 6, a + 8));
    assert(v == hi * 0x1_0000_0000_0000 + lo) by (nonlinear_arith)
        requires
            v == lo + pow256(6) * hi,
            pow256(6) == 0x1_0000_0000_0000,
    ;
    vstd::arithmetic::div_mod::lemma_fundamental_div_mod_converse(v, 0x1_0000_0000_0000, hi, lo);
}

/// The low 64 bits of a 128-bit identifier at `a` are its first eight bytes, so its
/// MFT reference is the packed reference in those bytes.
proof fn lemma_wide_reference(s: Seq<u8>, a: int)
    requires
        0 <= a,
        a + 16 <= s.len(),
    ensures
        spec_low_mft_reference(bytes_value(s, a, a + 16) as u128).entry == bytes_value(s, a, a + 6),
        spec_low_mft_reference(bytes_value(s, a, a + 16) as u128).sequence == bytes_value(
            s,
            a + 6,
            a + 8,
        ),
{
    lemma_pow256_widths();
    lemma_field_split(s, a, 8, 16);
    lemma_field_bound(s, a, 8);
    lemma_field_bound(s, a + 8, 8);
    lemma_field_bound(s, a, 16);
    let x: int = bytes_value(s, a, a + 16) as int;
    let lo: int = bytes_value(s, a, a + 8) as int;
    let hi: int = bytes_value(s, a + 8, a + 16) as int;
    assert(bytes_value(s, a, a + 16) == bytes_value(s, a, a + 8) + pow256(8) * bytes_value(s, a + 8, a + 16));
    assert(x == hi * 0x1_0000_0000_0000_0000 + lo) by (nonlinear_arith)
        requires
            x == lo + pow256(8) * hi,
            pow256(8) == 0x1_0000_0000_0000_0000,
    ;
    vstd::arithmetic::div_mod::lemma_fundamental_div_mod_converse(x, 0x1_0000_0000_0000_0000, hi, lo);
    lemma_packed_reference(s, a);
}

/// What decoding a `USN_RECORD_V2` does, stated on the input bytes: it succeeds exactly
/// when the record length is between 1 and 1024, the major version is 2, the minor
/// version is 0 and the 60-byte fixed part and the file name are present; every field
/// of the result is the little-endian number at its offset (flags keep their known
/// bits, references split into the first six and the last two bytes), and the file name
/// is the decoding of all `file_name_length` bytes after the fixed part. Each failure is
/// the one of the first check that fails, in the order of the fields.
pub proof fn lemma_v2_reads_input(s: Seq<u8>)
    ensures
        spec_parse_v2(s) is Ok <==> {
            &&& s.len() >= 60
            &&& 1 <= bytes_value(s, 0, 4) <= 1024
            &&& bytes_value(s, 4, 6) == 2
            &&& bytes_value(s, 6, 8) == 0
            &&& s.len() >= 60 + bytes_value(s, 56, 58)
        },
        spec_parse_v2(s) is Ok ==> {
            let r = spec_parse_v2(s)->Ok_0;
            &&& r.record_length == bytes_value(s, 0, 4)
            &&& r.major_version == 2
            &&& r.minor_version == 0
            &&& r.file_reference.entry == bytes_value(s, 8, 14)
            &&& r.file_reference.sequence == bytes_value(s, 14, 16)
            &&& r.parent_reference.entry == bytes_value(s, 16, 22)
            &&& r.parent_reference.sequence == bytes_value(s, 22, 24)
            &&& r.usn == bytes_value(s, 24, 32)
            &&& r.timestamp == bytes_value(s, 32, 40)
            &&& r.reason.bits == bytes_value(s, 40, 44) as u32 & 0x81FF_FF77u32
            &&& r.source_info.bits == bytes_value(s, 44, 48) as u32 & 0x0000_000Fu32
            &&& r.security_id == bytes_value(s, 48, 52)
            &&& r.file_attributes.bits == bytes_value(s, 52, 56) as u32 & 0x005F_FFF7u32
            &&& r.file_name_length == bytes_value(s, 56, 58)
            &&& r.file_name_offset == bytes_value(s, 58, 60)
            &&& r.file_name == utf16le_decode_ignore(s.subrange(60, 60 + bytes_value(s, 56, 58) as int))
        },
        s.len() < 4 ==> spec_parse_v2(s) == Err::<UsnRecordV2View, UsnError>(UsnError::UnexpectedEndOfInput),
        s.len() >= 4 && bytes_value(s, 0, 4) == 0 ==> spec_parse_v2(s) == Err::<UsnRecordV2View, UsnError>(
            UsnError::InvalidV2Record(RecordFault::ZeroLength),
        ),
        s.len() >= 4 && bytes_value(s, 0, 4) > 1024 ==> spec_parse_v2(s) == Err::<UsnRecordV2View, UsnError>(
            UsnError::InvalidV2Record(RecordFault::LengthOver1024),
        ),
        s.len() >= 6 && 1 <= bytes_value(s, 0, 4) <= 1024 && bytes_value(s, 4, 6) != 2
            ==> spec_parse_v2(s) == Err::<UsnRecordV2View, UsnError>(
            UsnError::InvalidV2Record(RecordFault::MajorVersionNot(2)),
        ),
        s.len() >= 8 && 1 <= bytes_value(s, 0, 4) <= 1024 && bytes_value(s, 4, 6) == 2
            && bytes_value(s, 6, 8) != 0 ==> spec_parse_v2(s) == Err::<UsnRecordV2View, UsnError>(
            UsnError::InvalidV2Record(RecordFault::MinorVersionNotZero),
        ),
        spec_parse_v2(s) is Err ==> spec_parse_v2(s)->Err_0 is UnexpectedEndOfInput
            || spec_parse_v2(s)->Err_0 is InvalidV2Record,
{
    lemma_fields_in_range(s);
    if s.len() >= 60 {
        lemma_packed_reference(s, 8);
        lemma_packed_reference(s, 16);
    }
}

/// What decoding a `USN_RECORD_V3` does, stated on the input bytes: it succeeds exactly
/// when the record length is between 1 and 1024, the major version is 3, the minor
/// version is 0 and the 76-byte fixed part and the file name are present; every field
/// of the result is the little-endian number at its offset (the file identifiers are
/// 16 bytes, flags keep their known bits), and the file name is the decoding of all
/// `file_name_length` bytes after the fixed part. Each failure is the one of the first
/// check that fails, in the order of the fields.
pub proof fn lemma_v3_reads_input(s: Seq<u8>)
    ensures
        spec_parse_v3(s) is Ok <==> {
            &&& s.len() >= 76
            &&& 1 <= bytes_value(s, 0, 4) <= 1024
            &&& bytes_value(s, 4, 6) == 3
            &&& bytes_value(s, 6, 8) == 0
            &&& s.len() >= 76 + bytes_value(s, 72, 74)
        },
        spec_parse_v3(s) is Ok ==> {
            let r = spec_parse_v3(s)->Ok_0;
            &&& r.record_length == bytes_value(s, 0, 4)
            &&& r.major_version == 3
            &&& r.minor_version == 0
            &&& r.file_reference == bytes_value(s, 8, 24)
            &&& r.parent_reference == bytes_value(s, 24, 40)
            &&& r.usn == bytes_value(s, 40, 48)
            &&& r.timestamp == bytes_value(s, 48, 56)
            &&& r.reason.bits == bytes_value(s, 56, 60) as u32 & 0x81FF_FF77u32
            &&& r.source_info.bits == bytes_value(s, 60, 64) as u32 & 0x0000_000Fu32
            &&& r.security_id == bytes_value(s, 64, 68)
            &&& r.file_attributes.bits == bytes_value(s, 68, 72) as u32 & 0x005F_FFF7u32
            &&& r.file_name_length == bytes_value(s, 72, 74)
            &&& r.file_name_offset == bytes_value(s, 74, 76)
            &&& r.file_name == utf16le_decode_ignore(s.subrange(76, 76 + bytes_value(s, 72, 74) as int))
        },
        s.len() < 4 ==> spec_parse_v3(s) == Err::<UsnRecordV3View, UsnError>(UsnError::UnexpectedEndOfInput),
        s.len() >= 4 && bytes_value(s, 0, 4) == 0 ==> spec_parse_v3(s) == Err::<UsnRecordV3View, UsnError>(
            UsnError::InvalidRecord(RecordFault::ZeroLength),
        ),
        s.len() >= 4 && bytes_value(s, 0, 4) > 1024 ==> spec_parse_v3(s) == Err::<UsnRecordV3View, UsnError>(
            UsnError::InvalidRecord(RecordFault::LengthOver1024),
        ),
        s.len() >= 6 && 1 <= bytes_value(s, 0, 4) <= 1024 && bytes_value(s, 4, 6) != 3
            ==> spec_parse_v3(s) == Err::<UsnRecordV3View, UsnError>(
            UsnError::InvalidRecord(RecordFault::MajorVersionNot(3)),
        ),
        s.len() >= 8 && 1 <= bytes_value(s, 0, 4) <= 1024 && bytes_value(s, 4, 6) == 3
            && bytes_value(s, 6, 8) != 0 ==> spec_parse_v3(s) == Err::<UsnRecordV3View, UsnError>(
            UsnError::InvalidRecord(RecordFault::MinorVersionNotZero),
        ),
        spec_parse_v3(s) is Err ==> spec_parse_v3(s)->Err_0 is UnexpectedEndOfInput
            || spec_parse_v3(s)->Err_0 is InvalidRecord,
{
    lemma_fields_in_range(s);
}

/// What decoding a `USN_RECORD_V4` does, stated on the input bytes: it succeeds exactly
/// when the record length is between 1 and 1024, the major version is 4 and the 64-byte
/// fixed part and `number_of_extents` extents of 16 bytes are present, whatever the
/// minor version; every field of the result is the little-endian number at its offset
/// (the minor version included), and the extents are the pairs of signed 64-bit numbers
/// that follow the fixed part, as many as `number_of_extents` says. Each failure is the
/// one of the first check that fails: an invalid length or an unexpected major version,
/// both with the value read, or the end of the input.
pub proof fn lemma_v4_reads_input(s: Seq<u8>)
    ensures
        spec_parse_v4(s) is Ok <==> {
            &&& s.len() >= 64
            &&& 1 <= bytes_value(s, 0, 4) <= 1024
            &&& bytes_value(s, 4, 6) == 4
            &&& s.len() >= 64 + 16 * bytes_value(s, 60, 62)
        },
        spec_parse_v4(s) is Ok ==> {
            let r = spec_parse_v4(s)->Ok_0;
            &&& r.header.record_length == bytes_value(s, 0, 4)
            &&& r.header.major_version == 4
            &&& r.header.minor_version == bytes_value(s, 6, 8)
            &&& r.file_reference == bytes_value(s, 8, 24)
            &&& r.parent_reference == bytes_value(s, 24, 40)
            &&& r.usn == bytes_value(s, 40, 48)
            &&& r.reason.bits == bytes_value(s, 48, 52) as u32 & 0x81FF_FF77u32
            &&& r.source_info.bits == bytes_value(s, 52, 56) as u32 & 0x0000_000Fu32
            &&& r.remaining_extents == bytes_value(s, 56, 60)
            &&& r.extents.len() == bytes_value(s, 60, 62)
            &&& forall|i: int|
                0 <= i < r.extents.len() ==> {
                    &&& #[trigger] r.extents[i].offset == signed64(bytes_value(s, 64 + 16 * i, 72 + 16 * i))
                    &&& r.extents[i].length == signed64(bytes_value(s, 72 + 16 * i, 80 + 16 * i))
                }
        },
        s.len() < 4 ==> spec_parse_v4(s) == Err::<UsnRecordV4View, UsnError>(UsnError::UnexpectedEndOfInput),
        s.len() >= 4 && (bytes_value(s, 0, 4) == 0 || bytes_value(s, 0, 4) > 1024)
            ==> spec_parse_v4(s) == Err::<UsnRecordV4View, UsnError>(
            UsnError::InvalidRecord(RecordFault::InvalidLength(bytes_value(s, 0, 4) as u32)),
        ),
        s.len() >= 6 && 1 <= bytes_value(s, 0, 4) <= 1024 && bytes_value(s, 4, 6) != 4
            ==> spec_parse_v4(s) == Err::<UsnRecordV4View, UsnError>(
            UsnError::InvalidRecord(RecordFault::UnexpectedVersion(bytes_value(s, 4, 6) as u16)),
        ),
        spec_v4_extent_size_rejected(s) <==> {
            &&& s.len() >= 64
            &&& 1 <= bytes_value(s, 0, 4) <= 1024
            &&& bytes_value(s, 4, 6) == 4
            &&& bytes_value(s, 62, 64) != 16
        },
        spec_record_rejected(4, s) == spec_v4_extent_size_rejected(s),
        forall|v: u16| v != 4 ==> !#[trigger] spec_record_rejected(v, s),
        spec_parse_v4(s) is Err ==> spec_parse_v4(s)->Err_0 is UnexpectedEndOfInput
            || spec_parse_v4(s)->Err_0 matches UsnError::InvalidRecord(RecordFault::InvalidLength(_))
            || spec_parse_v4(s)->Err_0 matches UsnError::InvalidRecord(RecordFault::UnexpectedVersion(_)),
{
    lemma_fields_in_range(s);
    if spec_parse_v4(s) is Ok {
        let r = spec_parse_v4(s)->Ok_0;
        assert forall|i: int| 0 <= i < r.extents.len() implies {
            &&& #[trigger] r.extents[i].offset == signed64(bytes_value(s, 64 + 16 * i, 72 + 16 * i))
            &&& r.extents[i].length == signed64(bytes_value(s, 72 + 16 * i, 80 + 16 * i))
        } by {
            lemma_pow256_widths();
            lemma_field_bound(s, 64 + 16 * i, 8);
            lemma_field_bound(s, 72 + 16 * i, 8);
        }
    }
}

/// Decoding a record of a requested version is decoding with the decoder of that
/// version, the result handed on unchanged: versions 2, 3 and 4 give the record, or the
/// error, of their own decoder, and every other version is refused as unsupported.
pub proof fn lemma_record_is_version_decoder(version: u16, s: Seq<u8>)
    ensures
        version == 2 ==> match spec_parse_v2(s) {
            Ok(r) => spec_parse_record(version, s) == Ok::<UsnRecordView, UsnError>(UsnRecordView::V2(r)),
            Err(e) => spec_parse_record(version, s) == Err::<UsnRecordView, UsnError>(e),
        },
        version == 3 ==> match spec_parse_v3(s) {
            Ok(r) => spec_parse_record(version, s) == Ok::<UsnRecordView, UsnError>(UsnRecordView::V3(r)),
            Err(e) => spec_parse_record(version, s) == Err::<UsnRecordView, UsnError>(e),
        },
        version == 4 ==> match spec_parse_v4(s) {
            Ok(r) => spec_parse_record(version, s) == Ok::<UsnRecordView, UsnError>(UsnRecordView::V4(r)),
            Err(e) => spec_parse_record(version, s) == Err::<UsnRecordView, UsnError>(e),
        },
        version != 2 && version != 3 && version != 4 ==> spec_parse_record(version, s) == Err::<
            UsnRecordView,
            UsnError,
        >(UsnError::UnsupportedUsnVersion(version)),
{
}

/// What the accessors of a decoded record give, stated on the input bytes: the update
/// sequence number, the reasons, the file attributes and file name (versions 2 and 3
/// only; version 4 carries neither), and the file and parent references, each the entry
/// in the first six bytes and the sequence number in the next two of the identifier.
pub proof fn lemma_accessors_read_input(version: u16, s: Seq<u8>)
    requires
        spec_parse_record(version, s) is Ok,
    ensures
        ({
            let r = spec_parse_record(version, s)->Ok_0;
            let usn_at: int = if version == 2 { 24 } else { 40 };
            let reason_at: int = if version == 2 { 40 } else if version == 3 { 56 } else { 48 };
            let parent_at: int = if version == 2 { 16 } else { 24 };
            let fixed: int = if version == 2 { 60 } else { 76 };
            &&& spec_usn(r) == bytes_value(s, usn_at, usn_at + 8)
            &&& spec_reason_code(r).bits == bytes_value(s, reason_at, reason_at + 4) as u32 & 0x81FF_FF77u32
            &&& spec_file_attributes_of(r) == if version == 4 {
                None::<FileAttributes>
            } else {
                Some(FileAttributes { bits: bytes_value(s, fixed - 8, fixed - 4) as u32 & 0x005F_FFF7u32 })
            }
            &&& spec_file_name_of(r) == if version == 4 {
                None::<Seq<char>>
            } else {
                Some(utf16le_decode_ignore(s.subrange(fixed, fixed + bytes_value(s, fixed - 4, fixed - 2) as int)))
            }
            &&& spec_file_reference_of(r).entry == bytes_value(s, 8, 14)
            &&& spec_file_reference_of(r).sequence == bytes_value(s, 14, 16)
            &&& spec_parent_reference_of(r).entry == bytes_value(s, parent_at, parent_at + 6)
            &&& spec_parent_reference_of(r).sequence == bytes_value(s, parent_at + 6, parent_at + 8)
        }),
{
    lemma_record_is_version_decoder(version, s);
    if version == 2 {
        lemma_v2_reads_input(s);
    } else if version == 3 {
        lemma_v3_reads_input(s);
        lemma_wide_reference(s, 8);
        lemma_wide_reference(s, 24);
    } else {
        lemma_v4_reads_input(s);
        lemma_wide_reference(s, 8);
        lemma_wide_reference(s, 24);
    }
}

/// Decoding with a file name given is decoding from the bytes with only the file name
/// replaced: the same checks and failures, the same fields, and exactly the name given.
pub proof fn lemma_given_name_replaces_only_the_name(s: Seq<u8>, name: Seq<char>)
    ensures
        match spec_parse_v2(s) {
            Ok(r) => spec_v2_with_name(s, name) == Ok::<UsnRecordV2View, UsnError>(
                UsnRecordV2View { file_name: name, ..r },
            ),
            Err(e) => spec_v2_with_name(s, name) == Err::<UsnRecordV2View, UsnError>(e),
        },
        match spec_parse_v3(s) {
            Ok(r) => spec_v3_with_name(s, name) == Ok::<UsnRecordV3View, UsnError>(
                UsnRecordV3View { file_name: name, ..r },
            ),
            Err(e) => spec_v3_with_name(s, name) == Err::<UsnRecordV3View, UsnError>(e),
        },
{
}

} // verus!
