# oapi-codegen

The checked core of a generator of Rust code from OpenAPI 3 documents,
written in Verus. Every function in `src/` carries a contract. Verus proves
each one except the few marked `#[verifier::external_body]`: the wrappers
around `serde_yaml`, `openapiv3`, `regex` and `String::push`, and the value
conversions they use. Their contracts are assumed, not proved.

- `src/config.rs`: the configuration and the warnings for keys it does not know.
- `src/coverage.rs`: the sweep over a parsed document that rejects unknown keys
  and malformed structure and warns about what generation ignores.
- `src/loader.rs`, `src/loader/`: reading `$ref`s, the document gates, the walk
  along a `$ref` chain, the typed parse into the model the generator reads
  (component schemas, operation slots, counts) with the filters applied to it,
  and which schemas a direction mark splits.
- `src/emit/`: which serde and foreign traits each model derives, and the
  Rust source the generator writes, each text pinned to a spec function of its
  IR: type expressions and string literals, enums and aliases, the `servers:`
  block, an operation's header and cookie structs and response enum, the
  server trait and its handlers, and the client's error type, struct,
  constructors and credential setters; the client's refusal of schemes it
  cannot send.
- `src/deps.rs`, `src/console.rs`, `src/filter.rs`, `src/error.rs`: the crates
  generated code needs, the hints shown for each error, the operation filters,
  and the one-line message of each error.
- `app/`: the command line, file input and output, and terminal reports.
- `tests/`: tests run against the compiled library.
