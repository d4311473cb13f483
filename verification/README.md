# siphon_rtp_engine

The decision core of an RTP media engine, written in Rust and verified with Verus. Every function of the
library states in a contract what it returns or changes. Verus proves the contract from the function's body,
but for the few wrappers around calls into other crates and the standard library, whose contracts it takes on
trust; they are named at the end.

- `src/media_pipeline/`: a call's media path. A datagram walks through a call as a chain of steps; each
  step names the next piece of codec, crypto or signal work, and its result selects the step after it.
  Latching, re-framing, prompts, key presses, taps and the registry of calls live here.
- `src/engine/`: WebSocket takeovers and tees, the end of a call, reports.
- `src/ice.rs`, `src/ice/`: credentials, consent freshness, the agent registry.
- `src/ha.rs`, `src/interface.rs`, `src/media_fetch.rs`, `src/metrics.rs`, `src/prompt_cache.rs`,
  `src/recording.rs`, `src/startup.rs`: snapshots, interfaces, bounded fetches, metrics, the prompt
  cache, recordings, start and stop of the daemon.
- `src/net.rs`, `src/text.rs`, `src/event.rs`, `src/endpoint_table.rs`: addresses, text, events, tables.
- `tests/`: tests on concrete values.
- `app/`: the daemon around the library: sockets, files, timers, JSON and TOML, command line. Codecs, SRTP, STUN
  and the datapath are traits there, implemented by the packages that provide them.

What Verus takes on trust is named where it stands: `DashMap`, `getrandom::fill`, `hyper::Uri`,
`Arc::clone`, `String::push` and `String::push_str`.
