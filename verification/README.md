# aetherdb (verified core)

The parts of AetherDB that decide things, with their contracts proved:

- `src/codec/` — the segment metadata model (namespace, schema, field and
  segment descriptors, field statistics) and the rules each descriptor must
  meet. Each `validate` states exactly which inputs it accepts and, for the
  others, the message of the first rule they break. `laws.rs` states what
  acceptance amounts to for each descriptor.
- `src/storage/` — the storage error type, the rule that object paths are
  simple relative paths, and the byte-range check of ranged reads.
- `src/base/` — the unified error type and the runtime configuration with
  its defaults.
- `src/cli.rs` — the commands of the binary and what each reports.
- `src/text.rs` — Unicode whitespace, trimming, decimal rendering and
  byte-wise string order, shared by the rules above.

`app/` holds the binary: clap and serde copies of the library's types,
logging setup, and the asynchronous filesystem store built on the library's
path and range rules.
