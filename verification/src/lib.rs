//! Coordinator for a turn-based word-guessing game played against a remote
//! word-checking service inside a message-passing environment.
//!
//! The heart of the crate is the session state machine: it correlates an
//! outgoing request with its eventual asynchronous reply, resumes the original
//! caller once the reply (or a timeout) is available, and enforces a timeout
//! measured in logical ticks through a self-scheduled delayed message.
//!
//! All interaction with the environment (sending, replying, waking, waiting)
//! is expressed as effect values returned by the handlers, so that a host
//! dispatcher can perform them while the decisions themselves stay verified.

pub mod env;
pub mod laws;
pub mod machine;
pub mod protocol;
pub mod session;
pub mod wordle;
