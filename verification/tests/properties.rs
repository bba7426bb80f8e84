use rusty_usn::error::UsnError;
use rusty_usn::flags::{FileAttributes, Reason, SourceInfo};
use rusty_usn::record::UsnRecord;
use rusty_usn::reference::Ntfs128Reference;

fn v2_bytes(name: &str) -> Vec<u8> {
    let name_bytes: Vec<u8> = name.encode_utf16().flat_map(|u| u.to_le_bytes()).collect();
    let mut b = Vec::new();
    b.extend_from_slice(&200u32.to_le_bytes());
    b.extend_from_slice(&2u16.to_le_bytes());
    b.extend_from_slice(&0u16.to_le_bytes());
    b.extend_from_slice(&[7u8; 48]);
    b.extend_from_slice(&(name_bytes.len() as u16).to_le_bytes());
    b.extend_from_slice(&60u16.to_le_bytes());
    b.extend_from_slice(&name_bytes);
    b
}

fn same(a: &Result<UsnRecord, UsnError>, b: &Result<UsnRecord, UsnError>) -> bool {
    format!("{:?}", a) == format!("{:?}", b)
}

#[test]
fn trailing_bytes_do_not_change_the_record() {
    let bytes = v2_bytes("journal");
    let alone = UsnRecord::new(2, &bytes);
    let mut longer = bytes.clone();
    longer.extend_from_slice(&[0xFF; 40]);
    assert!(alone.is_ok());
    assert!(same(&alone, &UsnRecord::new(2, &longer)));
    // A decided error stays the same too.
    let mut bad = bytes.clone();
    bad[0..4].copy_from_slice(&0u32.to_le_bytes());
    let mut bad_longer = bad.clone();
    bad_longer.push(1);
    assert!(same(&UsnRecord::new(2, &bad), &UsnRecord::new(2, &bad_longer)));
}

#[test]
fn decoding_reads_exactly_the_record() {
    let mut bytes = v2_bytes("ab");
    let size = 60 + 4;
    bytes.extend_from_slice(&[1, 2, 3]);
    assert!(same(&UsnRecord::new(2, &bytes), &UsnRecord::new(2, &bytes[..size])));
    assert_eq!(UsnRecord::new(2, &bytes[..size - 1]).unwrap_err(), UsnError::UnexpectedEndOfInput);
}

#[test]
fn decoded_headers_passed_their_checks() {
    let r = UsnRecord::new(2, &v2_bytes("x")).unwrap();
    match r {
        UsnRecord::V2(v) => {
            assert!(1 <= v.record_length && v.record_length <= 1024);
            assert_eq!(v.major_version, 2);
            assert_eq!(v.minor_version, 0);
        }
        _ => panic!("wrong version"),
    }
}

#[test]
fn truncating_flags_twice_changes_nothing() {
    for bits in [0u32, 1, 0xFFFF_FFFF, 0x1234_5678, 0x8000_0008] {
        let r = Reason::from_bits_truncate(bits);
        assert_eq!(Reason::from_bits_truncate(r.bits()), r);
        assert_eq!(r.bits() & !0x81FF_FF77, 0);
        let s = SourceInfo::from_bits_truncate(bits);
        assert_eq!(SourceInfo::from_bits_truncate(s.bits()), s);
        let f = FileAttributes::from_bits_truncate(bits);
        assert_eq!(FileAttributes::from_bits_truncate(f.bits()), f);
    }
}

#[test]
fn mft_reference_split_is_lossless() {
    for v in [0u64, 1, 0x9168_0000_0000_0073, u64::MAX, 0x0000_FFFF_FFFF_FFFF] {
        let m = Ntfs128Reference(v as u128).as_mft_reference();
        assert!(m.entry < (1u64 << 48));
        assert_eq!(m.entry + ((m.sequence as u64) << 48), v);
    }
}
