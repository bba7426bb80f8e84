//! A record together with where it was found.
use crate::error::UsnError;
use crate::record::{spec_parse_record, spec_record_rejected, view_result, UsnRecord, UsnRecordView};
use vstd::prelude::*;

verus! {

/// Where a record was found: the name of its source and its offset in it.
#[derive(Debug, Clone)]
pub struct EntryMeta {
    pub source: String,
    pub offset: u64,
}

impl EntryMeta {
    pub fn new(source: &str, offset: u64) -> (r: EntryMeta)
        ensures
            r.source@ == source@,
            r.offset == offset,
    {
        broadcast use vstd::string::to_string_from_display_ensures_for_str;

        EntryMeta { source: source.to_string(), offset }
    }
}

/// A decoded record and where it was found.
#[derive(Debug)]
pub struct UsnEntry {
    pub meta: EntryMeta,
    pub record: UsnRecord,
}

impl UsnEntry {
    /// Decodes the record of version `version` at the start of `buffer` and keeps `meta`
    /// beside it; fails as `UsnRecord::new` does.
    pub fn new(meta: EntryMeta, version: u16, buffer: &[u8]) -> (res: Result<UsnEntry, UsnError>)
        requires
            !spec_record_rejected(version, buffer@),
        ensures
            match res {
                Ok(entry) => entry.meta == meta && spec_parse_record(version, buffer@) == Ok::<
                    UsnRecordView,
                    UsnError,
                >(entry.record@),
                Err(e) => spec_parse_record(version, buffer@) == Err::<UsnRecordView, UsnError>(e),
            },
    {
        let record = match UsnRecord::new(version, buffer) {
            Ok(r) => r,
            Err(e) => return Err(e),
        };
        proof {
            assert(view_result(Ok::<UsnRecord, UsnError>(record)) == Ok::<UsnRecordView, UsnError>(record@));
        }
        Ok(UsnEntry { meta, record })
    }
}

} // verus!
