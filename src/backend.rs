//! The backends a process can bind the runtime layer to.
use vstd::prelude::*;

verus! {

/// The native backend: a thread pool for tasks and the operating system's
/// reactor for I/O.
#[derive(Debug, Clone, Copy, PartialEq, Eq, Structural)]
pub struct Native;

/// The multi-threaded Tokio backend.
#[derive(Debug, Clone, Copy, PartialEq, Eq, Structural)]
pub struct Tokio;

/// The single-threaded Tokio backend, running its tasks on one dedicated
/// thread.
#[derive(Debug, Clone, Copy, PartialEq, Eq, Structural)]
pub struct TokioCurrentThread;

} // verus!
