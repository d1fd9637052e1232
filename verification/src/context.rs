//! Setting up the context that requests run in.

use vstd::prelude::*;
use vstd::string::*;
use vstd::utf8::*;

use crate::status;
use crate::status::{set_error, CallOutcome, ErrorChannel};

verus! {

/// How the runtime behind a context is set up.
pub struct RuntimePlan {
    /// The name of its threads.
    pub thread_name: String,
    /// How many worker threads it has; none leaves the choice to the runtime.
    pub worker_threads: Option<usize>,
}

/// The runtime that a context asks for. 0 worker threads leaves the choice to the
/// runtime.
pub fn blitz_context_new(worker_threads: u32) -> (p: RuntimePlan)
    ensures
        p.thread_name@ == "blitz-net"@,
        p.worker_threads == if worker_threads == 0 {
            None
        } else {
            Some(worker_threads as usize)
        },
{
    RuntimePlan {
        thread_name: "blitz-net".to_owned(),
        worker_threads: if worker_threads > 0 {
            Some(worker_threads as usize)
        } else {
            None
        },
    }
}

/// The message that starting a runtime leaves.
pub open spec fn context_message<T>(outcome: CallOutcome<T, String>) -> Option<Seq<char>> {
    match outcome {
        CallOutcome::Returned(Ok(_)) => None,
        CallOutcome::Returned(Err(e)) => Some("failed to start tokio runtime: "@ + e@),
        CallOutcome::Panicked(_) => Some("panic while creating context"@),
    }
}

/// The runtime that was started, if it was; otherwise the channel says why not.
pub fn context_started<T>(channel: &mut ErrorChannel, outcome: CallOutcome<T, String>) -> (r:
    Option<T>)
    ensures
        match outcome {
            CallOutcome::Returned(Ok(t)) => r == Some(t),
            _ => r is None,
        },
        match context_message(outcome) {
            None => *final(channel) == *old(channel),
            Some(m) => final(channel)@ == Some(status::without_nul(encode_utf8(m)))
                && final(channel).well_formed(),
        },
{
    match outcome {
        CallOutcome::Returned(Ok(t)) => Some(t),
        CallOutcome::Returned(Err(e)) => {
            let mut message = "failed to start tokio runtime: ".to_owned();
            message.append(e.as_str());
            set_error(channel, message.as_str().as_bytes());
            None
        },
        CallOutcome::Panicked(_) => {
            set_error(channel, "panic while creating context".as_bytes());
            None
        },
    }
}

} // verus!
