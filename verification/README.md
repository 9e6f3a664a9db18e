# trading_services

The decision logic of two services of a trading platform, with its behaviour
stated in contracts and proved with Verus:

- `src/gateway/`: the API gateway: configuration and its checks, authentication
  and access decisions, rate limiting (sliding window, token bucket, fixed
  window), circuit breakers, the service registry, request forwarding (admission
  before the downstream call, settlement after it), cross-origin headers, request
  identifiers, and the WebSocket side (messages, a bounded priority queue,
  proxied connections).
- `src/market/`: the market-data service: exchange, storage and service
  configuration, exchange connectors and their subscriptions, the stream client's
  receive and send decisions, candle continuity and gap detection, the
  connection pool, health checks, API parameters, events and their filters, and
  the persisted service state.
- `src/strategy.rs`: market-condition vocabulary and strategy-template selection.
- `src/prompt.rs`: the request text the strategy engine sends for a new strategy.
- `src/runtime.rs`, `src/text.rs`, `src/strmap.rs`: the trusted calls into the
  clock, `uuid`, `url`, `urlencoding`, `serde_json` and `num_cpus`, text helpers
  (`src/prompt.rs` holds the one into `rust_decimal`),
  and an insertion-ordered string-keyed map.

Laws that relate several operations are public proof functions named `law_*`.

`app/` is the runnable part: the market-data collector (default) and the gateway
(`gateway` argument), which do the HTTP, WebSocket, Redis and file work and ask the
library at every decision. `tests/` exercises the library through its public API.
