# tuck

Tuck is a hard real-time security guard for CI-144 frames. It reads the
4-byte PFP header of a frame and decides, from a configurable policy,
whether the frame passes, is rejected, waits for a human, or passes under a
catastrophic hard override. Around that decision it keeps hash-chained audit
logs, injects credentials into outbound requests by identity label, verifies
SAP headers against replay, and guards plugin and tool execution.

## Layout

- `src/` — the library, verified with Verus. Every decision, parser, chain
  rule and store operation carries a contract; the laws the library keeps
  (fail-closed decisions, chain integrity, round trips of the wire formats,
  what a store read gives back of a write) are public proof functions named
  `law_*`. Calls into outside crates (SHA-256, AES-256-GCM, Ed25519, base64,
  JSON string quoting, UUIDs, randomness, the clock) sit behind small
  trusted wrappers whose contracts say what the crate's documentation gives.
- `tests/` — tests of the library on concrete values.
- `app/` — the edges: files, environment, TOML and JSON, async credential
  stores and bridges, timers, broadcast channels and the policy watcher.
  It reads and writes and waits; it hands the library plain values and
  takes plain values back.
