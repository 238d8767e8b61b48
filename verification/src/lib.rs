//! A verified core for a windowing-protocol client session.
//!
//! The library models the client side of a compositor session as explicit
//! state machines: a registry of server-advertised globals, a shared-memory
//! buffer pool with a busy/free slot lifecycle, a surface driven by the
//! configure/commit handshake, a seat whose keyboard and pointer capabilities
//! attach and detach dynamically, and a frame-paced render loop. Every event
//! handler is a total function from state and event to the next state and a
//! list of requests for the transport layer to perform; the transport itself
//! (the socket, the event queue) lives outside the library.
//!
//! `session` ties the pieces together and `laws` proves the global
//! guarantees: no torn frames, no drawing before the first configure, one
//! frame request outstanding after the first commit, idempotent capability
//! removal.

pub mod error;
pub mod laws;
pub mod pool;
pub mod registry;
pub mod render;
pub mod seat;
pub mod session;
pub mod surface;
