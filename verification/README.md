# teams_tui

A keyboard-driven terminal client for Microsoft Teams, built around a library
whose behaviour is specified and proved with Verus.

## Layout

- `src/` — the verified library.
  - `text.rs`: strings as character sequences (trimming, searching,
    replacing, joining, decimal formatting and parsing, UTF-8 byte offsets).
  - `graph.rs`: the Graph data model, chat titles, message text.
  - `store.rs`: a string-keyed store with unique keys, viewed as a map.
  - `app.rs`: the application state and its transitions (sidebar, message
    cache, input line, search and status menus, local contact search).
  - `keys.rs`: what each key press does and which work it asks for.
  - `events.rs`: how the state takes in the results of background work.
  - `view.rs`: the texts, badges and notes the screen shows.
  - `requests.rs`: the Graph requests and the decisions on their answers.
  - `auth.rs`: device-code sign-in decisions and token reuse.
  - `config.rs`, `logger.rs`: settings merging and log entries.
  - `laws.rs`: properties relating several operations.
- `tests/` — tests of the library on concrete values.
- `app/` — the program: terminal drawing, HTTP, keyring and file access, and
  the event loop that feeds the library keys and background results.
