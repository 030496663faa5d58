# atlas_common

Building blocks for tracking the provenance of machine learning assets in
the C2PA framework, written in Verus: the library's own functions state
their behaviour in `requires`/`ensures` and are proved against it. The
calls into `sha2`, `hex`, `subtle`, `uuid`, `time`, `num_cpus` and std
that Verus cannot read stand behind small trusted wrappers whose contracts
are taken on trust.

## Layout

- `src/hash/` — SHA-256/384/512 hashing as hexadecimal text, verification
  with constant-time comparison, combination of hashes, hash format
  validation, incremental hashing, and the hardware-aware strategies.
  `digest.rs` holds the trusted interface to `sha2`, `hex` and `subtle`.
- `src/c2pa/` — asset classification by file extension, manifest types,
  metadata and identifiers (`urn:c2pa:UUID[:generator[:version_reason]]`),
  and date-times with their UTC offset.
- `src/validation/` — validation of manifest identifiers, C2PA URNs,
  hashes and metadata.
- `src/file.rs` — the rulings of secure file access (symlinks, hard links)
  and the order in which they are made.
- `src/storage.rs` — storage backend kinds, configuration and interface.
- `src/ident.rs` — UUIDs, through the `uuid` crate.
- `src/text.rs` — string helpers: splitting, decimal numbers, prefixes.
- `tests/` — tests of the compiled library.
- `app/` — what touches the machine: file hashing and secure file access,
  CPU feature detection, parallel batch hashing, serde forms of the types
  and the error type with its messages.

The laws of the library are public proof functions next to the functions
they relate, for example `calculated_hash_verifies` (data verifies against
its own hash), `valid_c2pa_urn_is_valid_manifest_id`, and the URN
round-trip facts in the `ensures` of `ManifestId::with_version`.
