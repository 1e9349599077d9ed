//! Driver logic for a quad-I/O serial NOR flash chip behind a QSPI bus.
//!
//! The library decides which bus transactions to issue and in which order;
//! the caller owns the bus and performs them.
pub mod command;
pub mod chunker;
pub mod driver;
