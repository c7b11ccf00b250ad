# jyozu

A Figma tool provider for the Lonis harness, and the local bridge that the
Figma plugin connects to. The library in `src/` is verified with Verus; the
program in `app/` wires it to the command line, HTTP and WebSocket.

## Layout

- `src/json.rs` — JSON values and their mathematical model.
- `src/text.rs` — character-level helpers (substring search, decimal text).
- `src/tools.rs` — canonical and legacy tool names, plugin command names.
- `src/contracts.rs` — the machine-readable contract of each canonical tool.
- `src/legacy_tools.rs` — the legacy tool list and its descriptions.
- `src/schema.rs` — checking arguments against an input schema.
- `src/call.rs` — a call's stages: prepare, plan, finish, and its envelope.
- `src/provider.rs`, `src/diagnostics.rs` — manifest, tool list, status and doctor.
- `src/protocol.rs`, `src/session.rs`, `src/server.rs` — the bridge: messages,
  the registry of plugin sessions and pending commands, and what the bridge
  does with each message from a plugin.
- `src/assoc.rs` — key-value lists with unique keys and the maps they stand for.
- `src/laws.rs` — properties that relate several functions.
- `app/` — `main`, the HTTP and WebSocket servers, and serde conversions.
