# mempool_monitor

A monitor of Bitcoin transactions in the mempool. It answers requests about a transaction, streams
its state, and notifies a device when it is confirmed, by the public API of mempool.space and the
Apple Push Notification service.

- `src/` is the verified library: how replies are read, which notifications go out and when, how
  tokens are cached. Nothing in it does I/O: it says what to ask or to send, and takes what came
  back.
  - `text`, `double`, `json`: characters, IEEE doubles by their bits, JSON values of serde_json.
  - `mempool`: addresses and replies of the mempool API.
  - `apns`: configuration, tokens, requests and replies of the push service.
  - `watcher`: looking a transaction up, registering it, and the polling state machine.
  - `sse`, `push`, `server`: event streams, notifications on request, rules of the server.
- `app/` is the HTTP server around it.
- `tests/` runs the library.
