# bang_web

A web server for the card game Bang!: an HTTP server for the pages, a
WebSocket server for the players, and a game thread that answers the players'
messages.

- `src/` is the library, verified with Verus: reading the names of weapons,
  characters and cards; the command line (host and port); routing HTTP
  requests; counting WebSocket connections; reading messages to the game;
  the players' attribute counts; building template contexts and deciding
  what a page render answers; reading the configuration as TOML. Looking up
  the machine's address, tera's context and template-name calls, and the TOML
  parse rest on trusted wrappers.
- The template engine's own rendering calls are made in `app/`: on some
  templates they panic or do not return, which the library cannot rule out.
- `app/main.rs` is the program: the servers, the threads, the channels and
  the files, calling the library for each decision.
- `tests/` runs the library on concrete values.
