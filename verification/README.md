# harness_capture

Capture of agent harness sessions. A local TLS proxy and hook callbacks watch an
agent harness at work; what they see becomes an ordered tree of typed blocks in
a SQLite block store, and the raw payloads go to a raw cache.

- `src/` is the library: block construction from Anthropic Messages API traffic,
  reassembly of streamed responses, the block store and its queries, the raw
  cache, upstream resolution, header rules, the local certificate authority,
  hooks, and the orchestration of a session. Every function states what it does
  in `requires` and `ensures` clauses that Verus proves; what tables hold is
  stated for databases in memory, since others may write to a file. Calls into `rusqlite`,
  `serde_json`, `uuid`, `rcgen` and a few std functions stand behind small
  declarations whose doc comments say what is taken for granted.
- `src/*_laws.rs`, and the last section of some other modules, state what holds
  of several functions together.
- `tests/` runs the library, with the outside crates.
- `app/` is the program around it: sockets, files, the environment, and the
  serialised forms of the records.
