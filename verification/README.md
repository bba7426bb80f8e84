# rusty_usn

Decoding of NTFS change journal records (`USN_RECORD_V2`, `USN_RECORD_V3`,
`USN_RECORD_V4`), verified with Verus.

- `src/` is the verified library. `endian` reads little-endian fields,
  `reference` splits file references, `flags` keeps the known bits of the reason,
  source and attribute sets, `record` decodes the three record versions, `entry`
  pairs a record with where it was found, and `properties` proves what holds of
  decoding across inputs (trailing bytes never matter, a record occupies exactly
  its own bytes, decoded headers passed their checks).
- `app/` reads records from a stream and writes them out as JSON.
- `tests/` runs the library on concrete records.
