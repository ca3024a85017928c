//! Startup sequencing of the Iris Files desktop shell.
//!
//! The library decides what the shell does at startup and in which order:
//! which launch arguments ask for a minimized start, which features a target
//! platform offers, and the step-by-step bootstrap sequence with its failure
//! policy. The host program performs each step and reports back.
use vstd::prelude::*;

pub mod bootstrap;
pub mod launch;
pub mod logging;
pub mod platform;

verus! {

} // verus!
