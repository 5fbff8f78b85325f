//! The decisions of an interior-point solver for nonlinear programs: how the
//! options configure it, when its main loop stops, which driver runs a model,
//! when it is solved a second time, and what is reported of it.
//!
//! Numbers are held by their bit patterns (`number`), so that every comparison
//! and every rounding is part of a contract.
use vstd::prelude::*;

pub mod alg_builder;
pub mod application;
pub mod assembly;
pub mod batch;
pub mod conv_check;
pub mod decimal;
pub mod dispatch;
pub mod driver;
pub mod feasibility;
pub mod feral;
pub mod from_options;
pub mod iterates;
pub mod laws;
pub mod number;
pub mod options;
pub mod penalty;
pub mod quotient;
pub mod requests;
pub mod retry;
pub mod rounding;
pub mod second_opinion;
pub mod solve;
pub mod sqp_options;
pub mod statistics;
pub mod status;
pub mod text;

verus! {

} // verus!
