//! Observation of process lifecycle events through the kernel's process
//! events connector: the wire layout of its messages, the socket filter that
//! selects them, and the protocol a connector follows on its channel.

pub mod io;
pub mod solver;
