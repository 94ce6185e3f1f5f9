//! The messages exchanged with the background worker that refreshes files and
//! marks files viewed on GitHub.
use vstd::prelude::*;
use crate::state::ReviewFile;

verus! {

/// Work handed to the background worker.
#[derive(Debug)]
pub enum JobCommand {
    RefreshFiles,
    MarkFileViewed { pull_request_id: String, path: String },
    Shutdown,
}

/// What the background worker reports back.
#[derive(Debug)]
pub enum JobEvent {
    Progress(String),
    RefreshFinished(Result<Vec<ReviewFile>, String>),
    MarkFileViewedFinished { path: String, result: Result<(), String> },
}

impl JobCommand {
    /// Whether the worker stops on this command instead of doing work.
    pub fn ends_worker(&self) -> (stop: bool)
        ensures
            stop == (*self is Shutdown),
    {
        match self {
            JobCommand::Shutdown => true,
            _ => false,
        }
    }
}

} // verus!
