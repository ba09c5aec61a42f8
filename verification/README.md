# ai_usagebar

Usage snapshots of AI vendors, verified with Verus.

- `src/` is the library. It builds the requests to Z.AI, OpenRouter and OpenAI, turns their
  answers into snapshots, and decides what a fetch serves: the cache where it is young enough,
  a live answer, or the cache as stale after a failure.
- `app/` sends the requests, reads and writes the cache, and deserializes the answers.
- `tests/` runs the library on concrete inputs.

Doubles are held as the bits of their encoding, and specifications count them in units of the
least positive double, so that rounding is stated exactly. JSON documents stay with `serde_json`:
`src/json.rs` describes each call by what it does to a tree. `src/time.rs` and `src/text.rs` do
the same for `chrono` and for what the standard library does with texts.
