# crowdfunding_events

Verified event emission for a Soroban crowdfunding contract.

- `src/model.rs` — the values events carry (symbols, 32-byte ids, addresses,
  contract strings as bytes, integers, pool states), event payloads, events
  and event-log records, each with its mathematical view.
- `src/host.rs` — `ContractEnv`, the part of the host the emitters touch
  (ledger timestamp, the two persistent cells of the global event log, the
  events published so far), the log's state transition `record_event`, and
  the building blocks `publish`, `emit`, `announce`.
- `src/kind.rs` — the event kinds and their names, with proofs that every
  name is a valid Soroban symbol and that names identify kinds.
- `src/events.rs` — one emitter per event, each with an exact contract: it
  publishes its event and records it in the global event log.
- `src/laws.rs` — properties across emitters: the log stays consistently
  numbered, and a series of emissions publishes and records them in order.
- `app/lib.rs` — the Soroban adapter: loads the state from `soroban_sdk::Env`,
  runs an emitter, publishes the events and writes the log back.
