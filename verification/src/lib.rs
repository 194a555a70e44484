//! Verified core of a manager for a single local `opencode serve` subprocess.
//!
//! The crate has two halves:
//! a stateless launch planner ([`planner`]) that computes the port, the
//! argument vector and the provider environment variable for a launch, and a
//! supervisor ([`supervisor`]) that owns the single process slot and decides
//! when a running server is reused, replaced or stopped.  The host
//! application performs the actual spawning and killing and reports the
//! outcomes back; every decision about them is made and proved here.

pub mod errors;
pub mod planner;
pub mod probe;
pub mod supervisor;
pub mod text;
