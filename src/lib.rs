//! Decision logic of a minimal container bootstrap.
//!
//! A supervising process spawns a child into fresh PID, network and mount
//! namespaces; the child walks through the namespace steps and finally
//! replaces itself with a shell. The system calls themselves are made by the
//! caller: this library decides, from the outcome of each step, which step
//! comes next, and proves the ordering and failure rules of that sequence.
use vstd::prelude::*;

pub mod bootstrap;
pub mod config;
pub mod laws;
pub mod namespace;
pub mod supervisor;

verus! {

} // verus!
