# topk_cli

The verified core of the TopK command-line tool and of its benchmark tool,
written in Verus. Verus proves the functions under `src/` against their
contracts. The calls into outside crates (`colored`, `bytesize`, `sha2`,
`base64`, `chrono`) and into std's clock and `String::push` sit behind
small trusted wrappers: their contracts are believed, not proved, and a
few of them (the clock, the local time zone) promise nothing of what they
return.

- `src/` — the library: dataset caches and their laws, upload planning and
  reporting, search and answer rendering, the document list layouts,
  authentication decisions (API keys, sessions, tokens, login callbacks),
  configuration paths, and the benchmark's documents, id parsing and recall
  counts.
- `tests/` — tests on concrete values.
- `app/` — the I/O around the library: TOML files for the caches, tables
  drawn for the terminal, JSON output and token claims read from JSON.
