# picarus

A library for reading the item tables of the game's data archives and for
exploring them: weapons, accessories and secondary weapons with their
locales, sets, effects, options, tempering and quality tables, the
explorer's filters, selection and tabs, and an item's preview values.
The library's own functions are verified with Verus against their
contracts. The small wrappers in `src/outside.rs` and `src/settings.rs`,
which call into `std`, `encoding_rs`, `indexmap` and `sys_locale`, are not
verified: Verus trusts their contracts, which are stated from those
crates' documentation and source.

Layout:

- `src/table.rs` — the binary table format: header, offsets and fields.
- `src/fields.rs`, `src/text.rs`, `src/numeric.rs`, `src/effects.rs` — what
  a field holds: text, numbers kept as `f32` bit patterns, effects.
- `src/game_data/` — one module per kind of record, the reading of a whole
  table (`read_table`), the catalog of items, the per-level tables, the
  filters and which options an item can roll.
- `src/game_data_view.rs` — the explorer's state, the preview values and
  the previews kept per item.
- `src/kinds.rs`, `src/settings.rs` — the enumerations and the settings.
- `src/outside.rs` — the calls into `std`, `encoding_rs` and `indexmap`
  whose contracts are trusted; `src/settings.rs` holds the one call into
  `sys_locale`.
- `app/` — a console program that opens the archives, loads the tables
  through the library and lists the items matching a search.
