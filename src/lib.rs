//! A backend-agnostic asynchronous runtime layer.
//!
//! The decisions of the runtime facade live here as small state machines with
//! contracts: which candidate address to try next, when a timeout decorator
//! yields, how the registry slot may be set and cleared. The code that polls
//! futures and talks to the operating system drives these machines from the
//! outside and hands them plain values.
pub mod backend;
pub mod connect;
pub mod interval;
pub mod into_dyn;
pub mod net;
pub mod registry;
pub mod task;
pub mod time;
