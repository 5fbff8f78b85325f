//! What the operations promise, stated on their arguments and results alone.
//!
//! A law here speaks of a call by its contract, `call_ensures(operation,
//! arguments, result)`, and of options by what the caller set.
use vstd::prelude::*;

pub mod arithmetic;
pub mod assembly;
pub mod batch;
pub mod check;
pub mod configuration;
pub mod course;
pub mod defaults;
pub mod feasibility;
pub mod given;
pub mod iterates;
pub mod parts;
pub mod penalty;
pub mod plan;
pub mod requests;
pub mod retry;
pub mod run;
pub mod second_opinion;

verus! {

} // verus!
