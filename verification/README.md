# chess-base (verified core)

The decision-making core of a self-hosted chess study and game-database
server, written in Verus. Every function in `src/` carries a contract; Verus
proves all of them except five small trusted items in `text` and `json`
(`String::push` and the calls into `serde_json`), whose contracts are taken
on trust and say in their doc comments what they claim.

- `text` — strings: trimming, decimal rendering, HTML escaping, URL
  percent-encoding.
- `json` — a plain JSON model and the one place request bytes are parsed.
- `identity` — callers, write guards.
- `mcp`, `tool_args`, `tool_errors`, `symmetry` — the MCP JSON-RPC endpoint:
  framing, routing, the anonymous and read-only gates, tool argument
  readers, failure texts, the HTTP/MCP route table.
- `oauth` — the OAuth 2.1 authorization server: request validation, consent
  screen, code exchange, refresh rotation, discovery documents.
- `tree`, `study`, `danger`, `analysis`, `repertoire` — study move trees and
  their annotation passes, study errors and edits, danger-map verdicts,
  engine figures, merging games into repertoires.
- `settings`, `service_tokens`, `providers`, `generation` — per-user
  preferences, admin tokens, provider registry and generator preconditions.
- `views` — the health probe and the folder listing.

`app/` holds what Verus does not see: conversions to and from `serde_json`
and `chrono`, serde forms of records, and the floating-point conversions.
Storage, HTTP and the chess engine stay outside; the library takes their
results as arguments (or as closures, for positions replayed along a line).
