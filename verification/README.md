# flarecord

A Discord bot framework for Cloudflare Workers, with its logic verified by
Verus.

- `src/` is the verified library:
  - `gateway/` decides everything about the connection to the Discord
    gateway. Each event (a connect or disconnect request, an alarm, a text
    frame, a close or an error of the socket) goes to a function that takes
    the stored state, the in-memory flags, the clock and a random draw, and
    returns the effects to perform (`effect.rs`). `laws.rs` states and
    proves what holds across events: backoff, rate limiting, terminal close
    codes, session limits, heartbeats.
  - `models/components/` holds the component builders (action rows,
    sections, layouts, text inputs) with their shape rules as type
    invariants.
  - `registry.rs`, `bot/` and `dev/` hold the handler tables of a bot.
  - `services/` and `utils.rs` build the REST addresses and check request
    headers; `text.rs` holds the character-level helpers and their
    specifications.
- `app/` is the worker around it: the durable object that reads storage,
  sockets and HTTP and performs the effects the library returns, the HTTP
  endpoints, and the JSON forms of the library's types.
- `tests/` runs the library on concrete values.
