# rammux

A stream multiplexer for reliable byte stream transports, and a transit window
that bounds how much data a connection has in flight, both verified with
[Verus](https://github.com/verus-lang/verus).

- `src/` is the library: framing, flow control, scheduling state, round trip
  measurement, the downgrade handshake, the transit window, and the logic that
  the window is measured with. Every function carries a contract, which Verus
  proves except where it is believed (see below). It performs no I/O and wakes
  no tasks: calls hand out the wakers that their caller is to wake.
- `app/` drives the library over `tokio` transports: `mux` is the multiplexer,
  `transit` is the transit window, and the `client`, `server` and `harness`
  commands measure the latter over a link with known properties.
- `tests/` runs the library.

## What is proved across calls

Besides each function's own contract, `src/` states what holds of the library as
a whole:

- what one side writes into a stream is what the other side reads, in order,
  whatever is on the way in between (`stream/link.rs`);
- frames are read back as they were written, however reads split them
  (`codec/laws.rs`, `transit/laws.rs`);
- flow control: senders stay within what receivers allow, and no credit is lost
  (`stream/laws.rs`, `transport/laws.rs`, `transit/window.rs`);
- whoever waits on a stream is handed out to be woken exactly where what they
  wait for has come, closing included (`stream/wake_laws.rs`);
- the link-clearing exchange completes, has one initiator, and is announced
  (`probe_laws.rs`, `transit/probe.rs`).

## What is believed

Calls into `bytes`, `slab`, `tokio`, `rand` and parts of the standard library
that Verus knows nothing of go through small functions whose contracts Verus
takes on trust. Each says in its doc comment which outside function it calls and
what it claims of it. They stand in `bytes_ext.rs` (byte buffers),
`connection/streams.rs` (the table of streams), `rr_bus.rs` (the queue of ready
nodes), `header.rs` (random payloads), `time.rs` (the clock), `stream/waker.rs`
(wakers) and `error.rs` (I/O errors). What holds of the library holds as far as
those contracts do.
