# pallets

Verified models of the runtime modules of a decentralised cinema platform,
written in Verus.

- `src/system.rs`: accounts, call origins, the shared error type.
- `src/currency.rs`: the balances interface the moderation module uses, and
  `Ledger`, a verified in-memory implementation of it.
- `src/template.rs`, `src/stat_tracker.rs`, `src/movie.rs`,
  `src/ranking_list.rs`: the smaller modules.
- `src/moderation/`: the moderation module. `spec.rs` states what every step
  and call does over `ModerationView`; the other files implement the helpers
  and calls against those statements; `laws.rs` proves properties across
  calls.
- `tests/`: tests on concrete values.
- `app/`: SCALE encoding of the stored values.

Every call that fails leaves storage, balances and events as they were.
