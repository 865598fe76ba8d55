//! An interactive coding-tutor core: a sandboxed code-execution lifecycle,
//! a per-learner tutoring session state machine, and a deterministic
//! heuristic grader, with machine-checked contracts.

pub mod lessons;
pub mod models;
pub mod review;
pub mod sandbox;
pub mod session;
pub mod text;
pub mod tutor;

use vstd::prelude::*;

verus! {

/// The timeout, in seconds, applied to every learner code submission.
pub const SUBMISSION_TIMEOUT_SECS: u64 = 10;

} // verus!
