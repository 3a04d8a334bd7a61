# sentio

The decisions of a mail service, as a Verus library: bearer authentication of API
requests, HTTP ingest of messages into the inbound pipeline, and the opening of
SMTP sessions with a smart host.

- `src/` is the library. What needs a socket, a store, a clock or the environment
  is a step: the library says what to do and goes on with what came of it.
  - `auth`, `hash`: who a bearer token stands for.
  - `headers`, `address`, `ingest`: reading an ingest request.
  - `session`: the course of an ingest request; `course`: what holds of it as a
    whole.
  - `relay`: opening a relay session; `relay_course`: what holds of every one.
  - `state`: what the API's handlers share.
  - `errors`, `message`, `text`: the types and functions that these build on.
- `app/` runs the steps: axum handlers, stores, sockets.
- `tests/` runs the library on given values.
