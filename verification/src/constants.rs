//! Fixed values shared across the crate.

pub mod app;
pub mod buffers;
pub mod cli;
pub mod clocks;
pub mod errors;
pub mod hardware;
pub mod power;
