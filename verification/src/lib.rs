//! A small web-service lifecycle library.
//!
//! The heart of the crate is the service lifecycle: a running service is
//! represented by a handle holding a one-shot shutdown signal and a one-shot
//! completion handle, both consumable at most once. Shutdown is idempotent;
//! awaiting completion a second time is a misuse error. The surrounding
//! modules model the server configuration, the accept-loop phases, the
//! routing plan and the logger's filtering rules.

pub mod config;
pub mod handle;
pub mod logging;
pub mod phase;
pub mod routing;
pub mod signal;

use vstd::prelude::*;

verus! {

/// The error values that the library's fallible operations return.
#[derive(PartialEq, Eq, Structural, Clone, Copy, Debug)]
pub enum LifecycleError {
    /// Completion was already awaited once; a second await is a caller bug.
    CompletionAlreadyTaken,
}

} // verus!
