//! An in-process, bounded, single-producer/single-consumer byte pipe.
//!
//! Three transports are offered: a lock-protected bounded byte buffer
//! (`buffer`), a lock-free ring buffer whose handles signal readiness through
//! events (`ring`), and a bounded queue of byte chunks (`queue`).
//! The bounded buffer's byte-level rules are modelled in `model`, with the
//! laws that hold of every run, and implemented exactly by
//! `transport::Transport`. The ring and the queue keep their bytes inside an
//! outside crate; their handles state the same write, read and close protocol
//! over what those crates report.

pub mod buffer;
pub mod model;
pub mod queue;
pub mod ring;
pub mod transport;

pub use model::PipeError;
