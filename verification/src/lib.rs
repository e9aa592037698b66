//! A resource-consumption simulator, as a library: the grammar of size
//! strings, the construction of the memory and thread strategies from a
//! resource request, and the decisions that their execution rests on.
//! Every function carries a contract that Verus proves.
//!
//! Allocating raw memory and running worker threads is left to the caller:
//! the memory strategy says which block to allocate, the thread strategy what
//! each worker computes and whether the collected results agree.

pub mod error;
pub mod memory;
pub mod resource;
pub mod size;
pub mod thread;
pub mod workload;
