//! Supervision of a long-running backend service process: planning its
//! launch, detecting readiness by polling a health endpoint, terminating
//! its whole process tree, and giving incremental read access to its log.
//!
//! The decision logic lives here and is verified; the host application
//! around it performs the actual spawning, HTTP polling and file reads,
//! handing this crate plain values.

pub mod launcher;
pub mod logstore;
pub mod numfmt;
pub mod poller;
pub mod proctree;
pub mod supervisor;
pub mod textutil;

use vstd::prelude::*;

verus! {

/// Port the backend binds to, on the loopback address.
pub const BACKEND_PORT: u16 = 8765;

} // verus!
