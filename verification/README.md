# ultra_sniper

A BTC prediction-market trading bot.  The crate is a Verus library
(`src/`) with a program around it (`app/`).

`src/` holds the parts whose behaviour is stated and proved:

- `ring_buffer` — fixed-capacity history buffer (`RingBuffer<T, N>`, an
  inline array of `N` slots); its contents, oldest → newest, are always the
  last `N` of all values pushed into it (`lemma_contents_are_last_pushed`,
  and `get`'s contract by index).
- `aggregator` — timeframes and `BarWindow`, which hands back every
  completed period of one-minute bars (`lemma_window_after`).
- `strategy`, `decision`, `execution`, `simulation`, `paper_trade` — the
  signal rule, the trade gate, signal → side, and the exit rules.
- `reconnect` — the retry schedule of the WebSocket streams: attempt `k`
  waits `min(2^(k-1-s), 30)` s, `s` being the last attempt that connected
  (`lemma_wait_before_attempt`), with a bounded number of retries.
- `mode`, `feed`, `text` — operating mode, feed configuration, request and
  stream URLs, candle selection, new-bar check and polling cadence, and error texts.

`app/` holds `main`, network I/O (REST and WebSocket feeds) and everything
computed on floating-point prices (indicators, order book, fills, PnL,
statistics), which calls into the library for the rules above.
