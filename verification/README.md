# aish

A shell for AI coding agents: it registers agents (local processes, SSH
hosts, sockets), sends them prompts one at a time or fanned out to all that
are online, follows their tasks, shows everything in a terminal interface,
and runs agents inside isolated "bands".

The agents speak the Model Context Protocol (JSON-RPC 2.0 over standard
input and output, SSH, Unix sockets or TCP).

## Layout

- `src/` — the library, verified with Verus: core types, configuration, the
  agent registry, the task scheduler, the event bus, bands, SSH commands, the
  SQLite migrations, MCP routing, the reading of incoming NDJSON lines and
  tool catalogs, the adapters' state, the
  daemon's and the command line's decisions, and the terminal interface's
  state machine. `src/outside.rs` holds every trusted declaration of an
  outside crate or std function the library calls.
- `tests/` — tests of the library.
- `app/` — the program around the library: argument parsing, files, sockets,
  processes, JSON encoding, async plumbing and terminal drawing.
