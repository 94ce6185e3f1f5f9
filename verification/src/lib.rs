//! Reviewed-state pull request review: diff hunks, reviewed-state bookkeeping
//! and the decisions of the terminal review interface.
use vstd::prelude::*;

pub mod text;
pub mod diff_model;
pub mod github;
pub mod log_buffer;
pub mod prefs;
pub mod state;
pub mod jobs;
pub mod tui;

verus! {
} // verus!
