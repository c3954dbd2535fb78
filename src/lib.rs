//! Bookkeeping for background lifecycle operations: a registry that keeps at
//! most one task handle per resource key, the decisions taken when a task
//! completes or is awaited, and the request shapes of the virtual machine API.
use vstd::prelude::*;

pub mod action;
pub mod task;
pub mod registry;
pub mod laws;
pub mod vm;
pub mod version;
pub mod cargo;

verus! {

} // verus!
