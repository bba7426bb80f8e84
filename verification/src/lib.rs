//! Verified parsing of NTFS update sequence number (USN) journal records.
pub mod endian;
pub mod entry;
pub mod error;
pub mod flags;
pub mod properties;
pub mod record;
pub mod reference;
