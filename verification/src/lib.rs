//! Core routing and connection-management fabric of a transparent sidecar
//! proxy.
//!
//! Accepted connections are classified as HTTP/1, HTTP/2 or opaque TCP and
//! dispatched to a per-destination client stack (connect, protocol client,
//! reconnect, backoff, buffer, in-flight limit).  Opaque TCP is forwarded
//! byte-for-byte by a bidirectional duplex copier.  A discovery client keeps
//! a long-lived controller channel alive behind reconnect and backoff layers.
//!
//! Asynchronous I/O, timers and the event loop live outside this crate; the
//! state machines here take the outcome of each I/O step as a plain value,
//! so every routing and sequencing decision is verified.

pub mod addr;
pub mod backoff;
pub mod bind;
pub mod buffer;
pub mod control;
pub mod ctx;
pub mod inbound;
pub mod origin;
pub mod reconnect;
pub mod request;
pub mod tcp;
pub mod timeout;
