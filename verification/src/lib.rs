//! Supervision of one long-running backend process: the decisions, with
//! their contracts, behind starting it, capturing its output, probing it
//! for readiness, signalling the outcome and shutting it down.
//!
//! Everything here works on plain values. The caller performs the outside
//! work (spawning, reading pipes, HTTP requests, sleeping, emitting events)
//! and hands the results in.

pub mod text;
pub mod capture;
pub mod error;
pub mod launch;
pub mod outcome;
pub mod probe;
pub mod startup;
pub mod supervisor;
