# mosh-client

A Mosh client whose decisions are verified with Verus.

- `src/input.rs`: keyboard and mouse events as plain values.
- `src/keys.rs`: the bytes that a key sends; the command key.
- `src/mouse.rs`: SGR mouse reports.
- `src/encoding.rs`: UTF-8 characters and decimal digits.
- `src/options.rs`: `[user@]host` and the prediction mode.
- `src/session.rs`: the session as a machine from events to effects and a
  request for the next event.
- `src/session_laws.rs`: what holds of every session.
- `app/`: the program: command line, terminal events, and the loop that performs
  what the session asks for. It is written against traits for the SSH bootstrap,
  the transport, the screen model, the predictor and the renderer
  (`app/parts.rs`). No implementation of them is part of this project: the only
  backend, `Unlinked`, refuses to connect, so the program as it is built here
  ends with an error before a session starts.
- `tests/`: the library on concrete values.

One fact is taken on trust: what `crossterm::event::KeyModifiers::contains`
answers (`flags_contain` in `src/input.rs`).
