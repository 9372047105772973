# tauri-plugin-notification (verified core)

Windows toast notifications for Tauri apps, with the logic verified by Verus.

* `src/` — the verified library: the adaptive toast XML and its escaping,
  the activation arguments and their parsing back (with the round-trip laws
  in `round_trip.rs`), the exactly-once activation queue and its AES-256-GCM
  storage, GUID parsing for the COM activator, the registry and shortcut
  plans, the Windows release tiers and feature gates, and the setup,
  dispatch, listener and shutdown decisions.
* `tests/` — the behaviour on concrete values.
* `app/` — the runtime around it: serde forms of the types, the worker and
  persist threads with their files, the relay, the plugin setup, and the
  WinRT / COM / registry calls on Windows.

Verify with `verus` on `src/lib.rs`; the crate builds and tests with cargo.

Two std collections of the plugin are kept as vectors with an invariant:
the queue's set of seen ids (`Vec<String>`, no id twice, equal to the ids
of the queued items) and the input map (`InputMap`, a `Vec` of entries in
which a later entry for a key wins). vstd specifies `HashMap` and `HashSet`
only for keys that obey its key model, which it grants to primitive types;
a `String` key would need that assumed, which this crate does not do. The
hash-based forms were not tried.
