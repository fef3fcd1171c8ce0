# ponder

An encrypted journaling tool with local AI assistance, written in Verus.

- `src/` is the library, verified by Verus: date logic for journal entries
  (today, the past week, reminisce intervals, specific dates), entry paths
  and headings, the state machines that open and edit entries, configuration
  loading and validation, the command-line arguments, the passphrase session,
  age encryption of journal data, temporary-file decisions, text chunking,
  prompts, the decisions of the Ollama client and of the database layer, and
  the error types with their messages.
- `tests/` runs the library on concrete values.
- `app/` is the `ponder` program around the library: reading the command
  line (clap), logging, files and locks, the editor process, the terminal passphrase
  prompt, HTTP requests to Ollama, and the SQLite database (including the
  floating-point similarity search).

Verify with Verus on `src/lib.rs`; the outside crates are listed in
`Cargo.toml`.
