//! Higher-level, verified handles over three *nix signalling primitives:
//! event counters (eventfd), POSIX message queues and anonymous pipes.
//!
//! Every kernel call goes through a small trusted wrapper around the `nix`
//! crate that hands back raw descriptors and errno codes; ownership of
//! descriptors, the error taxonomy, size checks, the closed state of a queue
//! and the encoding of counter values are verified.

pub mod error;
pub mod eventfd;
pub mod fd;
pub mod msgqueue;
pub mod pipe;
mod sys;

pub use error::{ErrorKind, Result};
