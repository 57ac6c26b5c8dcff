//! Core primitives of the storage-offload host service: the single-producer /
//! single-consumer hand-off ring, the I/O descriptor it carries, and the small
//! acceleration and transport entry points around them.

pub mod accel;
pub mod error;
pub mod foreign;
pub mod laws;
pub mod rings;
pub mod transport;
pub mod types;

pub use error::CoreError;
pub use rings::SpscRing;
pub use types::{IoDesc, IoFlags, IoOp};
