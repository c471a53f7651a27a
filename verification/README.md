# maky

A terminal chat client for OpenAI models with ChatGPT OAuth login, written as
a Verus-verified library (`src/`) and a thin terminal front end (`app/`).

- `src/app` — input editing, local commands, chat state transitions, the
  controller that turns events into state changes and outside work, Markdown
  rendering and the history view.
- `src/auth` — OAuth sessions, the credential resolution at startup, token
  stores, and the ChatGPT OAuth decisions (callback handling, PKCE, refresh,
  device-code polling).
- `src/providers`, `src/agent`, `src/storage`, `src/tools` — provider turn
  planning, session and configuration data, and tool argument/result shaping.
- `app/` — `main`, the terminal loop (crossterm, ratatui), network calls
  (reqwest, webbrowser), the token file and the SQLite session log.

Every function in `src/` is checked by Verus against its contract. The few
without one (the cancellation flag of a turn handle, the clock readings) say
in their doc comments why nothing is stated of their results. The `law_*`
proof functions state properties that relate several operations.
