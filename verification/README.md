# clang

Bindings to libclang's C interface.

- `src/` (verified): the enumerations of the interface (`CXCursorKind`,
  `CXTypeKind`, `CXErrorCode`, `CXChildVisitResult`) with the C integer code
  of each variant, decoded by `from_raw` and encoded by `to_raw`; and the
  decisions of a generator that turns the structs and typedefs of a C header
  into field-less Rust struct items (`generator`, `inclusion`).
- `app/`: the libclang functions themselves, the structs libclang passes by
  value, and the driver that parses a header and feeds each cursor to the
  generator.
- `tests/`: the code table of every enumeration, and the generator's steps.
