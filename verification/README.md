# api

A conversation service: threads between two agents, messages posted to
them, scripted runs that publish events, and subscribers that receive
those events as server-sent events.

- `src/` is the verified library (Verus): request checks, the steps of
  posting a message, reply bodies, the event model, the per-thread
  broadcast channels, the stream of server-sent events and the run script.
- `app/` is the HTTP server (axum, sqlx, reqwest): it reads requests,
  performs the database, channel and upstream calls that the library's
  decisions ask for, and writes the replies.
- `tests/` exercises the library on concrete values.
