# agentforce_a2a

A policy that lets agents that speak A2A 0.3.0 talk to a Salesforce Agentforce
agent. It serves the agent card, and it answers the JSON-RPC methods
`message/send`, `tasks/get` and `tasks/cancel` with the Agentforce API, an OAuth
token cache and a task store in the gateway's shared cache.

* `src/` is the library. Verus proves the contract of every function but those
  listed below. What needs the outside world is written as an operation over a
  record of answers: it either returns its result or names the next action, and its
  contract says which, for every record (`src/effects.rs`).
* `app/` runs the operations on a Flex Gateway: it performs each action, adds the
  answer to the record and runs the operation again.
* `tests/` runs the library.

## What is trusted

Twelve small functions call another crate or the standard library. Verus believes
what their contracts say and does not read their bodies:

* in `src/json.rs`, `read_bytes`, `read_text` and `write_bytes` (reading and writing
  JSON with `serde_json`), and `json_of_value` and `value_of_json` (to and from
  `serde_json::Value`, the one outside type that is declared);
* in `src/spans.rs`, `skip_value` (where a JSON value ends, from `serde_json` and
  `serde`);
* in `src/encoding.rs`, `url_encode` (`urlencoding`), `form_encode`
  (`serde_urlencoded`), `sha256` (`sha2`), `text_lossy` (`String::from_utf8_lossy`)
  and `random_uuid` (`uuid`);
* in `src/decode.rs`, `debug_of` (the `Debug` form of a string).

The contract of `String::push` is stated in `src/text.rs` and believed too. Results
that are only named, such as a digest, are spec functions without a body; the
contracts above are all that is known of them.
