//! Connection layer of a Redis client, written without I/O: every decision
//! the layer takes is a verified function from plain values to plain values,
//! and the caller performs the network operations in between.

pub mod command;
pub mod connection;
pub mod counters;
pub mod discovery;
pub mod dispatch;
pub mod error;
pub mod reply;
pub mod setup;
pub mod text;
pub mod transport;
