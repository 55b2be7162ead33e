# modem_manager_rs

A driver library for Quectel BG95/BG96/EG916U cellular modems, written in
Verus. The library decides what the driver sends and what each reply means;
the contracts of its functions state those decisions, and Verus proves them.

Layout:

- `src/` — the verified library.
  - `quectel_atat/` — AT commands, their byte encodings, response and URC
    types, band and SSL configuration.
  - `cellular/` — driver decisions: SIM checks, registration, NTP/NITZ time,
    sockets, MQTT, files, power-on, response framing.
  - `chip.rs` — per-chip setup plans and attach classification.
  - `net.rs` — the network supervisor state machine (reconnect backoff,
    pause and shutdown).
  - `ppp.rs`, `tcp.rs`, `tcp_std.rs` — PPP and TCP socket bookkeeping.
  - `text.rs`, `support.rs` — byte and text helpers, and the few calls into
    `std` and `time` whose contracts are trusted.
- `app/` — the asynchronous driver around the library: serial I/O through
  `atat`, timers, the embassy network stack.
- `tests/` — tests of the library.
