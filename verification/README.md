# iceicebabyv2

A small desktop chat client for Spacebar/Discord-compatible servers, written
as a verified library and a thin driver.

- `src/` is the library, checked by Verus:
  - `message.rs`: the events the client reacts to and the plain values it
    reads of guilds, channels and chat messages;
  - `client.rs`: the application state, its transition relation `App::step`
    and the executable `App::update` proved to follow it, and which gateway
    streams to listen to;
  - `login.rs`, `main_view.rs`: what each screen shows, as data;
  - `chat.rs`: the order of the chat area (a stable sort by send time) and
    the text of each line;
  - `laws.rs`: properties of the state machine stated over `App::step`.
- `app/` is the iced application: it performs the logins, sends and fetches
  the library asks for through chorus, subscribes to gateway events, and
  draws the screens.
- `tests/` runs the library on concrete values.
