# khronos_runtime

The verified core of Khronos, the Luau template runtime of AntiRaid: the rules the runtime and
its plugins apply, written in Verus with their contracts proved.

- `src/` is the library. Each module holds one area: `validators` (what templates ask Discord
  to send), `discord` (capabilities, bulk operations, audit log reasons), `httpserver` (methods,
  versions, routes, bind addresses and the answer to each request), `httpclient` (which URLs
  and resolved addresses are allowed, bounded bodies), `lifecycle` (a runtime's broken and
  closed states, its execution clock, named isolates), `datamgmt` (tar archives, base64,
  password-based encryption), `datetime` (time zones and moments, their readings from
  `chrono`, and their arithmetic), `timedelta` (durations, counted and read back in each unit),
  `channel`, `wasm`, `pages`, `caps`, `lockdowns`,
  `stings`, `kv`, `promise`, `typesext`, and the helpers `text` and `keyed`.
- `tests/` runs the library on concrete values.
- `app/` holds what stays outside the proofs: serde forms of page settings, gzip streams on
  tokio, and socket addresses.
