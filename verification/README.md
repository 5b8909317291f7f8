# betfair-stream-api

A Betfair Exchange Stream API client whose core is verified with Verus.

## Layout

- `src/` — the verified library:
  - `ladder`, `available`: price ladders kept as key-sorted vectors and their
    incremental updates;
  - `runner_book`, `market_book`, `orderbook`, `keyed`: the runner, market and
    order caches that market and order changes are folded into;
  - `tracker`: the market and order stream trackers and the stream state that
    dispatches change messages and clears stale caches;
  - `messages`: the Stream API messages as values of the library (prices and
    sizes in hundredths);
  - `codec`: the line framing of the wire protocol;
  - `clock`: the machine's clock, read in milliseconds since the Unix epoch;
  - `handshake`: the client handshake as a state machine;
  - `subscriber`: the market and order subscription bookkeeping;
  - `mock_server`: the state machine of the mock stream server;
  - `lib.rs`: the message processors (`Cache`, `Forwarder`).
- `tests/` — tests of the library.
- `app/` — the I/O around it: the JSON form of the messages (serde), `tokio`
  codecs, the client task with TLS, heartbeats and reconnection, subscription
  handles, and the mock server's listener.
