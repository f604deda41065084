# pos_terminal

The logic of a point-of-sale terminal, written in Verus. The functions in `src/` carry
contracts that Verus proves, except the small wrappers marked `#[verifier::external_body]`
around calls into `rust_decimal`, `chrono`, `uuid`, `zeroize`, `serde_json`, `directories` and
std: their contracts are assumed, as their doc comments say.

## Layout

- `src/dec.rs` — exact decimal amounts, with `rust_decimal` doing the arithmetic behind
  trusted wrappers.
- `src/text.rs`, `src/fields.rs` — building and splitting text, with specifications over
  character sequences.
- `src/time.rs`, `src/ids.rs` — instants, formats and identifiers (`chrono`, `uuid`).
- `src/models/` — carts, transactions, operators and their permissions, PINs, products,
  shifts, features, enrolment and Z reports.
- `src/services/` — the decisions of the terminal's services: PIN verification and session
  renewal, the offline queue, sync conflicts, drafts, card payments, pairing, the heartbeat,
  the feature catalogue and the log reader. Each decision is a function from plain values to
  plain values; where a service alternates outside work and decisions, the decisions form a
  state machine that a caller drives.
- `src/printing.rs` — receipts, X and Z reports as sequences of print commands, each proved
  equal to the layout it prints.
- `tests/` — tests on concrete values.
- `app/` — the unverified edges: files, the printer device, the machine's load and identity,
  and the JSON shapes of the library's types.
