# espanso_manager

The verified core of EspansoManager, a desktop manager for [espanso](https://espanso.org) text
expansions: the model of `base.yml`, the edit form, the folder bookkeeping, the selection, the
search, date formats, the patches it makes to espanso's `default.yml`, the start-up and pause
logic that drives `espansod.exe`, and every message the interface shows. Functions state in their
contracts what they return or change, and Verus proves those contracts; where a result rests on
Unicode character data or on lower-casing outside ASCII, the contract names that data rather than
spelling it out.

## Layout

- `src/` — the library, verified by Verus. `app_state.rs` gathers the state the interface reads
  and every change it can make; the other modules hold the pieces it is built from
  (`state.rs` for saves, deletes, moves and the bulk prefix change; `selection.rs`, `list.rs`,
  `search.rs`, `edit_form.rs`, `datefmt.rs`, `date_blocks.rs`, `config_patch.rs`,
  `espanso_ctl.rs`, `pause.rs`, `transfer.rs`, `backups.rs`, …; `placeholders.rs` proves that every
  translation keeps the placeholders of the English sentence). Properties that relate several
  calls are public proof functions whose names begin with `law_`.
- `tests/` — ordinary tests against the compiled library.
- `app/` — a small command-line program around the library: it performs the start-up the
  window would (settings, espanso's configuration, the expansions file, the first-run trial file)
  and prints the list; reading and writing files, YAML and JSON through serde, and running
  `espansod.exe` happen there. It has no window. Verus does not see it.

Calls into outside crates from `src/` go through a few trusted wrappers, each documented where it
is declared (`text.rs` for character classes and lower-casing, `espanso_ctl.rs` for JSON string
quoting).
