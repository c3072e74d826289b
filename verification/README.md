# codex_launchpad

A launcher for Codex against a local or self-hosted OpenAI-compatible
endpoint (Ollama and the like): it keeps `~/.codex/config.toml` pointed at the
endpoint and can put it back, starts and stops Codex, watches the endpoint,
the Codex API and the account's rate limits, and fails over to a fallback
profile when a limit is reached.

## Layout

- `src/` — the library, verified with Verus. Each public function states in
  its contract what it returns or changes; the laws that tie functions
  together (merging settings, applying then restoring the Codex
  configuration, redaction, the monitors' alert lists, the order of the
  thread list and of the log view, served paths staying under the web root)
  are public proof functions beside them. Calls into `toml_edit`, `chrono`,
  `dirs` and `std::path` stand behind small trusted wrappers whose doc
  comments say what is claimed of them.
- `app/` — the program around the library: argument handling, files,
  processes, HTTP, the app-server's JSON-RPC, the background watch and the
  web UI server. It reads and writes, and hands plain values to the library's
  decisions.
- `tests/` — tests of the library on concrete values.
