//! Orchestration kernel for flight pipelines driven against a remote
//! spacecraft-control simulation: a shared cancellation token, the abort
//! toggle over it, parameter validation, and the phase-sequencing session.

pub mod launcher;
pub mod params;
pub mod session;
pub mod toggle;
pub mod token;
