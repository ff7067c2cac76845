//! A minimal length-prefixed RPC protocol with a stream and a datagram
//! server around one shared counter.
//!
//! The server exposes two operations: `Add` accumulates into a single signed
//! 32-bit counter (with wrapping arithmetic) and returns the post-increment
//! value; `Echo` returns its operand untouched. On a stream transport every
//! payload travels behind a four-byte big-endian length prefix; a datagram
//! carries the bare payload, since the packet boundary is the frame boundary.
//!
//! All counter mutation is confined to one dispatch hub: connection workers
//! queue `(reply route, call)` pairs, and the hub dispatches them one at a
//! time, in arrival order, and answers each on its submitted route. The hubs,
//! the dispatcher, the codec and the worker transition table are verified;
//! sockets, threads and channel plumbing live with the programs built on top.

pub mod channel;
pub mod client;
pub mod codec;
pub mod consts;
pub mod server;
pub mod utils;
