# agentd

A verified library for supervising coding agents that run as sessions of a daemon, and the command
line around it.

- `src/` holds the library. Every function has a contract. Verus proves it, except for the few
  functions that only call another crate or the standard library: what those say of the code that
  they call is believed, and their comments tell what that is.
  - `protocol/`: the binary protocol between the daemon and its clients. What is written is read
    back, and nothing else is read as it.
  - `terminal/`: a terminal as a grid of cells, and what each character does to it.
  - `tui/`: the full-screen view of all sessions.
  - `client/`: the commands of a client, the daemon as a client sees it, and an attached client.
  - `picker*.rs`, `overlay*.rs`, `switcher.rs`: the lists from which a session is picked.
  - `session*.rs`, `local.rs`, `sqlite_schema.rs`: sessions, how they are shown, and how they are
    stored.
  - `config.rs`, `paths.rs`, `request_input.rs`: configuration, files, and an agent's questions.
  - `text.rs`, `time.rs`, `order.rs`, `fuzzy.rs`, `style.rs`, `keys.rs`: what the rest builds on.
- `tests/` holds its tests.
- `app/` holds the program: arguments, sockets, files, processes and the terminal.

Laws of the library, which relate several functions, are public proof functions.
