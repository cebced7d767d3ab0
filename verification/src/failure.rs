//! The failure of a compilation that was handed to a worker.
//!
//! The pipeline itself never fails. A caller that runs it on a worker pool
//! reports a task that could not be run, or did not finish, with the message
//! built here.

use vstd::prelude::*;

verus! {

/// The message that reports a failed task: a fixed label, then the cause.
pub open spec fn failure_message(cause: Seq<char>) -> Seq<char> {
    "Async task error: "@ + cause
}

/// Builds the message that reports a failed task from the text of its cause.
pub fn task_failure_message(cause: &str) -> (message: String)
    ensures
        message@ == failure_message(cause@),
{
    String::from_str("Async task error: ").concat(cause)
}

} // verus!
