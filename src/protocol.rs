//! The requests a client makes and the answers it gets.
use vstd::prelude::*;

pub use crate::mode::Mode;

use crate::engine::Outcome;
use crate::system::{proc_views, BlockingProcess};

verus! {

/// A client request.
#[derive(PartialEq, Eq, Structural, Clone, Copy, Debug)]
pub enum Command {
    /// Report the status.
    Status,
    /// Persist and apply a mode.
    SetMode(Mode),
    /// Persist the boot-time restore delay, in seconds.
    Delay(u32),
}

/// An answer to a client.
#[derive(Debug)]
pub enum Response {
    Success,
    Error(String),
    StatusOutput(String),
    ProcessesRunning(Vec<BlockingProcess>),
}

impl Response {
    /// The answer for a finished transition: `Ok` on success, the blocking
    /// processes when there were some, the message otherwise.
    pub fn from_outcome(o: Outcome) -> (r: Response)
        ensures
            o.ok ==> r is Success,
            !o.ok && o.blocking@.len() > 0 ==> (r matches Response::ProcessesRunning(ps) && proc_views(ps@) == proc_views(o.blocking@)),
            !o.ok && o.blocking@.len() == 0 ==> (r matches Response::Error(m) && m@ == o.message@),
    {
        if o.ok {
            Response::Success
        } else if o.blocking.len() > 0 {
            Response::ProcessesRunning(o.blocking)
        } else {
            Response::Error(o.message)
        }
    }
}

} // verus!
