//! Deep-link install pipeline: parse and sanitize a `matrix://install` link
//! into a typed request, describe the child-process invocation, decode its
//! output streams into ordered log lines, and drive the install state machine
//! that ends in exactly one completion event.

pub mod cli;
pub mod command;
pub mod events;
pub mod orchestrator;
pub mod request;
pub mod stream;
