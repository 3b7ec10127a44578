//! Single-producer single-consumer queues.
//!
//! The crate offers two channel flavors: a fixed-capacity ring-buffer
//! channel (`spsc::bounded`) and an unbounded growable channel
//! (`spsc::unbounded`), together with a plain fixed-capacity queue
//! (`spsc::Queue`). Every operation carries a contract describing the
//! queue contents as a mathematical sequence, and the disconnect
//! handshake between the two endpoints of a channel is a verified
//! state machine.

pub mod error;
pub mod spsc;
pub mod util;
