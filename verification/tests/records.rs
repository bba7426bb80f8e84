use rusty_usn::entry::{EntryMeta, UsnEntry};
use rusty_usn::error::{RecordFault, UsnError};
use rusty_usn::flags::{FileAttributes, Reason, SourceInfo};
use rusty_usn::record::{UsnRecord, UsnRecordV2, UsnRecordV3, UsnRecordV4};
use rusty_usn::reference::{MftReference, Ntfs128Reference};

fn utf16(s: &str) -> Vec<u8> {
    s.encode_utf16().flat_map(|u| u.to_le_bytes()).collect()
}

/// A USN_RECORD_V2 whose file name is `name`.
fn v2_bytes(name: &str) -> Vec<u8> {
    let name_bytes = utf16(name);
    let mut b = Vec::new();
    b.extend_from_slice(&96u32.to_le_bytes()); // record length
    b.extend_from_slice(&2u16.to_le_bytes()); // major
    b.extend_from_slice(&0u16.to_le_bytes()); // minor
    b.extend_from_slice(&[0x73, 0x00, 0x00, 0x00, 0x00, 0x00, 0x68, 0x91]); // file reference
    b.extend_from_slice(&0x0005_0000_0000_0010u64.to_le_bytes()); // parent reference
    b.extend_from_slice(&0x0102_0304_0506_0708u64.to_le_bytes()); // usn
    b.extend_from_slice(&[0x53, 0xC7, 0x8B, 0x18, 0xC5, 0xCC, 0xCE, 0x01]); // timestamp
    b.extend_from_slice(&0x8000_0102u32.to_le_bytes()); // reason
    b.extend_from_slice(&0x0000_0012u32.to_le_bytes()); // source info
    b.extend_from_slice(&0x0000_0105u32.to_le_bytes()); // security id
    b.extend_from_slice(&0x8000_0020u32.to_le_bytes()); // file attributes
    b.extend_from_slice(&(name_bytes.len() as u16).to_le_bytes());
    b.extend_from_slice(&60u16.to_le_bytes()); // name offset
    b.extend_from_slice(&name_bytes);
    b
}

/// A USN_RECORD_V3 whose file name is `name`.
fn v3_bytes(name: &str) -> Vec<u8> {
    let name_bytes = utf16(name);
    let mut b = Vec::new();
    b.extend_from_slice(&120u32.to_le_bytes());
    b.extend_from_slice(&3u16.to_le_bytes());
    b.extend_from_slice(&0u16.to_le_bytes());
    b.extend_from_slice(&0xAABB_CCDD_0000_0000_9168_0000_0000_0073u128.to_le_bytes());
    b.extend_from_slice(&0x0000_0000_0000_0001_0002_0000_0000_0005u128.to_le_bytes());
    b.extend_from_slice(&77u64.to_le_bytes()); // usn
    b.extend_from_slice(&1234u64.to_le_bytes()); // timestamp
    b.extend_from_slice(&0x0000_0100u32.to_le_bytes()); // reason
    b.extend_from_slice(&0x0000_0001u32.to_le_bytes()); // source info
    b.extend_from_slice(&9u32.to_le_bytes()); // security id
    b.extend_from_slice(&0x0000_0010u32.to_le_bytes()); // attributes
    b.extend_from_slice(&(name_bytes.len() as u16).to_le_bytes());
    b.extend_from_slice(&76u16.to_le_bytes());
    b.extend_from_slice(&name_bytes);
    b
}

/// A USN_RECORD_V4 with the given extents.
fn v4_bytes(extents: &[(i64, i64)], extent_size: u16) -> Vec<u8> {
    let mut b = Vec::new();
    b.extend_from_slice(&96u32.to_le_bytes());
    b.extend_from_slice(&4u16.to_le_bytes());
    b.extend_from_slice(&1u16.to_le_bytes()); // minor 1 is accepted
    b.extend_from_slice(&0x1111_0000_0000_0000_0003_0000_0000_0042u128.to_le_bytes());
    b.extend_from_slice(&0x0000_0000_0000_0000_0007_0000_0000_0005u128.to_le_bytes());
    b.extend_from_slice(&555u64.to_le_bytes()); // usn
    b.extend_from_slice(&0x0000_0002u32.to_le_bytes()); // reason
    b.extend_from_slice(&0x0000_0004u32.to_le_bytes()); // source info
    b.extend_from_slice(&3u32.to_le_bytes()); // remaining extents
    b.extend_from_slice(&(extents.len() as u16).to_le_bytes());
    b.extend_from_slice(&extent_size.to_le_bytes());
    for (o, l) in extents {
        b.extend_from_slice(&o.to_le_bytes());
        b.extend_from_slice(&l.to_le_bytes());
    }
    b
}

#[test]
fn v2_decodes_every_field() {
    let bytes = v2_bytes("file.txt");
    let r = UsnRecordV2::new(&bytes).unwrap();
    assert_eq!(r.record_length, 96);
    assert_eq!(r.major_version, 2);
    assert_eq!(r.minor_version, 0);
    assert_eq!(r.file_reference, MftReference { entry: 115, sequence: 37224 });
    assert_eq!(r.parent_reference, MftReference { entry: 0x10, sequence: 5 });
    assert_eq!(r.usn, 0x0102_0304_0506_0708);
    assert_eq!(r.timestamp, 0x01CE_CCC5_188B_C753);
    assert_eq!(r.reason, Reason { bits: 0x8000_0102 });
    assert_eq!(r.source_info, SourceInfo { bits: 0x2 });
    assert_eq!(r.security_id, 0x105);
    assert_eq!(r.file_attributes, FileAttributes { bits: 0x20 });
    assert_eq!(r.file_name_length, 16);
    assert_eq!(r.file_name_offset, 60);
    assert_eq!(r.file_name, "file.txt");
}

#[test]
fn v2_with_decoded_name_keeps_the_given_name() {
    let bytes = v2_bytes("abc");
    let r = UsnRecordV2::with_decoded_name(&bytes, String::from("other")).unwrap();
    assert_eq!(r.file_name, "other");
    assert_eq!(r.file_name_length, 6);
}

#[test]
fn v2_rejects_zero_length() {
    let mut bytes = v2_bytes("a");
    bytes[0..4].copy_from_slice(&0u32.to_le_bytes());
    assert_eq!(
        UsnRecordV2::new(&bytes).unwrap_err(),
        UsnError::InvalidV2Record(RecordFault::ZeroLength)
    );
    // The length check comes before the version is read.
    assert_eq!(
        UsnRecordV2::new(&[0, 0, 0, 0]).unwrap_err(),
        UsnError::InvalidV2Record(RecordFault::ZeroLength)
    );
}

#[test]
fn v2_rejects_length_over_1024() {
    let mut bytes = v2_bytes("a");
    bytes[0..4].copy_from_slice(&1025u32.to_le_bytes());
    assert_eq!(
        UsnRecordV2::new(&bytes).unwrap_err(),
        UsnError::InvalidV2Record(RecordFault::LengthOver1024)
    );
    bytes[0..4].copy_from_slice(&1024u32.to_le_bytes());
    assert!(UsnRecordV2::new(&bytes).is_ok());
}

#[test]
fn v2_rejects_other_versions() {
    let mut bytes = v2_bytes("a");
    bytes[4..6].copy_from_slice(&3u16.to_le_bytes());
    assert_eq!(
        UsnRecordV2::new(&bytes).unwrap_err(),
        UsnError::InvalidV2Record(RecordFault::MajorVersionNot(2))
    );
    let mut bytes = v2_bytes("a");
    bytes[6..8].copy_from_slice(&1u16.to_le_bytes());
    assert_eq!(
        UsnRecordV2::new(&bytes).unwrap_err(),
        UsnError::InvalidV2Record(RecordFault::MinorVersionNotZero)
    );
}

#[test]
fn v2_reports_truncated_input() {
    let bytes = v2_bytes("abcd");
    for cut in [0usize, 3, 5, 7, 30, 59, 60, 67] {
        assert_eq!(
            UsnRecordV2::new(&bytes[..cut]).unwrap_err(),
            UsnError::UnexpectedEndOfInput,
            "cut at {}",
            cut
        );
    }
    assert!(UsnRecordV2::new(&bytes[..68]).is_ok());
}

#[test]
fn v2_drops_unknown_flag_bits() {
    let mut bytes = v2_bytes("a");
    bytes[40..44].copy_from_slice(&0xFFFF_FFFFu32.to_le_bytes());
    bytes[44..48].copy_from_slice(&0xFFFF_FFFFu32.to_le_bytes());
    bytes[52..56].copy_from_slice(&0xFFFF_FFFFu32.to_le_bytes());
    let r = UsnRecordV2::new(&bytes).unwrap();
    assert_eq!(r.reason.bits(), 0x81FF_FF77);
    assert_eq!(r.source_info.bits(), 0xF);
    assert_eq!(r.file_attributes.bits(), 0x005F_FFF7);
}

#[test]
fn v3_decodes_every_field() {
    let bytes = v3_bytes("dir");
    let r = UsnRecordV3::new(&bytes).unwrap();
    assert_eq!(r.record_length, 120);
    assert_eq!(r.major_version, 3);
    assert_eq!(r.file_reference.as_u128(), 0xAABB_CCDD_0000_0000_9168_0000_0000_0073);
    assert_eq!(r.parent_reference.as_u128(), 0x0000_0000_0000_0001_0002_0000_0000_0005);
    assert_eq!(r.usn, 77);
    assert_eq!(r.timestamp, 1234);
    assert_eq!(r.reason, Reason { bits: 0x100 });
    assert_eq!(r.source_info, SourceInfo { bits: 1 });
    assert_eq!(r.security_id, 9);
    assert_eq!(r.file_attributes, FileAttributes { bits: 0x10 });
    assert_eq!(r.file_name_length, 6);
    assert_eq!(r.file_name_offset, 76);
    assert_eq!(r.file_name, "dir");
}

#[test]
fn v3_errors() {
    let mut bytes = v3_bytes("a");
    bytes[0..4].copy_from_slice(&0u32.to_le_bytes());
    assert_eq!(UsnRecordV3::new(&bytes).unwrap_err(), UsnError::InvalidRecord(RecordFault::ZeroLength));
    bytes[0..4].copy_from_slice(&2000u32.to_le_bytes());
    assert_eq!(UsnRecordV3::new(&bytes).unwrap_err(), UsnError::InvalidRecord(RecordFault::LengthOver1024));
    let mut bytes = v3_bytes("a");
    bytes[4..6].copy_from_slice(&2u16.to_le_bytes());
    assert_eq!(UsnRecordV3::new(&bytes).unwrap_err(), UsnError::InvalidRecord(RecordFault::MajorVersionNot(3)));
    let mut bytes = v3_bytes("a");
    bytes[6..8].copy_from_slice(&9u16.to_le_bytes());
    assert_eq!(UsnRecordV3::new(&bytes).unwrap_err(), UsnError::InvalidRecord(RecordFault::MinorVersionNotZero));
    let bytes = v3_bytes("a");
    assert_eq!(UsnRecordV3::new(&bytes[..77]).unwrap_err(), UsnError::UnexpectedEndOfInput);
}

#[test]
fn v4_decodes_extents() {
    let bytes = v4_bytes(&[(4096, 8192), (-1, i64::MIN)], 16);
    assert!(UsnRecordV4::extent_size_is_supported(&bytes));
    let r = UsnRecordV4::new(&bytes).unwrap();
    assert_eq!(r.header.record_length, 96);
    assert_eq!(r.header.major_version, 4);
    assert_eq!(r.header.minor_version, 1);
    assert_eq!(r.file_reference.as_u128(), 0x1111_0000_0000_0000_0003_0000_0000_0042);
    assert_eq!(r.usn, 555);
    assert_eq!(r.reason, Reason { bits: 2 });
    assert_eq!(r.source_info, SourceInfo { bits: 4 });
    assert_eq!(r.remaining_extents, 3);
    assert_eq!(r.extents.len(), 2);
    assert_eq!((r.extents[0].offset, r.extents[0].length), (4096, 8192));
    assert_eq!((r.extents[1].offset, r.extents[1].length), (-1, i64::MIN));
}

#[test]
fn v4_errors() {
    let mut bytes = v4_bytes(&[], 16);
    bytes[0..4].copy_from_slice(&0u32.to_le_bytes());
    assert_eq!(UsnRecordV4::new(&bytes).unwrap_err(), UsnError::InvalidRecord(RecordFault::InvalidLength(0)));
    bytes[0..4].copy_from_slice(&1500u32.to_le_bytes());
    assert_eq!(UsnRecordV4::new(&bytes).unwrap_err(), UsnError::InvalidRecord(RecordFault::InvalidLength(1500)));
    let mut bytes = v4_bytes(&[], 16);
    bytes[4..6].copy_from_slice(&3u16.to_le_bytes());
    assert_eq!(UsnRecordV4::new(&bytes).unwrap_err(), UsnError::InvalidRecord(RecordFault::UnexpectedVersion(3)));
    let bytes = v4_bytes(&[(1, 2)], 16);
    assert_eq!(UsnRecordV4::new(&bytes[..79]).unwrap_err(), UsnError::UnexpectedEndOfInput);
    assert_eq!(UsnRecordV4::new(&bytes[..63]).unwrap_err(), UsnError::UnexpectedEndOfInput);
}

#[test]
fn v4_other_extent_sizes_are_flagged() {
    let bytes = v4_bytes(&[(1, 2)], 24);
    assert!(!UsnRecordV4::extent_size_is_supported(&bytes));
    // Where decoding stops before the extent size, the size does not matter.
    assert!(UsnRecordV4::extent_size_is_supported(&bytes[..63]));
    let mut bad = bytes.clone();
    bad[4..6].copy_from_slice(&2u16.to_le_bytes());
    assert!(UsnRecordV4::extent_size_is_supported(&bad));
}

#[test]
fn record_dispatches_on_version() {
    let v2 = v2_bytes("x");
    assert!(matches!(UsnRecord::new(2, &v2).unwrap(), UsnRecord::V2(_)));
    let v3 = v3_bytes("x");
    assert!(matches!(UsnRecord::new(3, &v3).unwrap(), UsnRecord::V3(_)));
    let v4 = v4_bytes(&[], 16);
    assert!(matches!(UsnRecord::new(4, &v4).unwrap(), UsnRecord::V4(_)));
    assert_eq!(UsnRecord::new(5, &v2).unwrap_err(), UsnError::UnsupportedUsnVersion(5));
    assert_eq!(UsnRecord::new(1, &[]).unwrap_err(), UsnError::UnsupportedUsnVersion(1));
    // A version 2 decoder refuses a version 3 record.
    assert_eq!(
        UsnRecord::new(2, &v3).unwrap_err(),
        UsnError::InvalidV2Record(RecordFault::MajorVersionNot(2))
    );
}

#[test]
fn record_getters() {
    let v2 = UsnRecord::new(2, &v2_bytes("name")).unwrap();
    assert_eq!(v2.get_usn(), 0x0102_0304_0506_0708);
    assert_eq!(v2.get_file_name(), Some("name"));
    assert_eq!(v2.get_file_attributes(), Some(FileAttributes { bits: 0x20 }));
    assert_eq!(v2.get_reason_code(), Reason { bits: 0x8000_0102 });
    assert_eq!(v2.get_file_reference(), MftReference { entry: 115, sequence: 37224 });
    assert_eq!(v2.get_parent_reference(), MftReference { entry: 0x10, sequence: 5 });

    let v3 = UsnRecord::new(3, &v3_bytes("n")).unwrap();
    assert_eq!(v3.get_usn(), 77);
    assert_eq!(v3.get_file_name(), Some("n"));
    assert_eq!(v3.get_file_reference(), MftReference { entry: 0x73, sequence: 0x9168 });
    assert_eq!(v3.get_parent_reference(), MftReference { entry: 5, sequence: 2 });

    let v4 = UsnRecord::new(4, &v4_bytes(&[], 16)).unwrap();
    assert_eq!(v4.get_usn(), 555);
    assert_eq!(v4.get_file_name(), None);
    assert_eq!(v4.get_file_attributes(), None);
    assert_eq!(v4.get_reason_code(), Reason { bits: 2 });
    assert_eq!(v4.get_file_reference(), MftReference { entry: 0x42, sequence: 3 });
    assert_eq!(v4.get_parent_reference(), MftReference { entry: 5, sequence: 7 });
}

#[test]
fn ntfs128_reference_low_bits() {
    let r = Ntfs128Reference(0xFFFF_FFFF_FFFF_FFFF_1234_5678_9ABC_DEF0);
    assert_eq!(r.as_u128(), 0xFFFF_FFFF_FFFF_FFFF_1234_5678_9ABC_DEF0);
    assert_eq!(r.as_mft_reference(), MftReference { entry: 0x5678_9ABC_DEF0, sequence: 0x1234 });
}

#[test]
fn entry_meta_and_entry() {
    let meta = EntryMeta::new("$UsnJrnl:$J", 4096);
    assert_eq!(meta.source, "$UsnJrnl:$J");
    assert_eq!(meta.offset, 4096);
    let entry = UsnEntry::new(meta.clone(), 2, &v2_bytes("f")).unwrap();
    assert_eq!(entry.meta.source, "$UsnJrnl:$J");
    assert_eq!(entry.record.get_file_name(), Some("f"));
    assert_eq!(
        UsnEntry::new(meta, 9, &[]).unwrap_err(),
        UsnError::UnsupportedUsnVersion(9)
    );
}

#[test]
fn flags_truncate_and_contain() {
    let r = Reason::from_bits_truncate(0xFFFF_FFFF);
    assert_eq!(r.bits(), 0x81FF_FF77);
    assert!(r.contains(Reason::from_bits_truncate(0x8000_0000)));
    assert!(!Reason::from_bits_truncate(0x100).contains(Reason::from_bits_truncate(0x200)));
    assert_eq!(SourceInfo::from_bits_truncate(0x13).bits(), 0x3);
    assert_eq!(FileAttributes::from_bits_truncate(0x0080_0008).bits(), 0);
    assert!(FileAttributes::from_bits_truncate(0x30).contains(FileAttributes::from_bits_truncate(0x10)));
    assert!(SourceInfo::from_bits_truncate(0x1).contains(SourceInfo::from_bits_truncate(0)));
}
