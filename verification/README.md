# rocketman

A jetstream (AT Protocol firehose) consumer, with its core verified in Verus.

- `src/` is the verified library: endpoint URLs, options, the subscription
  URL and reconnection backoff, the event model, the message handler that
  keeps the cursor and decides what each message asks for, the teal.fm play
  and profile record handling (AT URIs, artist ids, DIDs, blob links), and the
  API's responses.
- `app/` is the I/O around it: JSON reading, the websocket loop, the async
  handler and ingestors, the PostgreSQL writes and the HTTP server.
- `tests/` exercises the library on concrete values.
