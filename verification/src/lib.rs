//! GPU tuning for NVIDIA RTX 50-series cards: the rules that turn a requested
//! change (locked clocks, clock offsets, power limit, full reset) into an
//! ordered sequence of calls on the vendor management library.
//!
//! Nothing here touches the hardware. Every orchestrator is a state machine:
//! it names the next call, the caller performs it and hands back what came of
//! it, and the machine decides what follows.

pub mod cli;
pub mod constants;
pub mod error;
pub mod gpu;
pub mod nvml;
pub mod session;
pub mod text;
