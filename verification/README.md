# orderbook-rs

Rules of a limit order book, verified with Verus.

- `src/stp.rs` decides how a match goes on at a price level that holds orders
  of the taker's own user. The safe quantity it reports is proved to be the
  largest that cannot self-trade.
- `src/error.rs` holds the errors of the book and of the book manager. Their
  messages are specified character by character.
- `src/metrics.rs` decides which counters and gauges an event updates.
- `src/level.rs`, `src/order.rs` and `src/price_level.rs` stand between these
  and the `pricelevel` crate, `src/debug.rs` between them and the formatters of
  `std`. The functions marked `external_body` there are the only ones whose
  contracts are trusted.
- `app/` binds the library to `serde` and to the `metrics` recorder, and gives
  the errors their `std::error::Error` implementations.
