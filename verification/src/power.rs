//! Suspend and resume.

use vstd::prelude::*;
use crate::bus::{status, GenericProc, IoError, Request};
use crate::config::configuring;
use crate::step::{AfterCall, Phase, Step};

verus! {

/// The phase in which suspending begins.
pub open spec fn suspending() -> Phase {
    Phase::Call { procedure: GenericProc::Suspend, then: AfterCall::Return }
}

/// The phase in which resuming begins.
pub open spec fn resuming() -> Phase {
    Phase::Call { procedure: GenericProc::Resume, then: AfterCall::Configure }
}

/// Starts suspending the device: the framework's own procedure does the
/// work, and its outcome is the result.
pub fn suspend() -> (step: Step)
    ensures
        step@ == suspending(),
{
    Step::Call { procedure: GenericProc::Suspend, then: AfterCall::Return }
}

/// Starts resuming the device: the framework's own procedure runs first, and
/// the chip is configured whatever came of it.
pub fn resume() -> (step: Step)
    ensures
        step@ == resuming(),
{
    Step::Call { procedure: GenericProc::Resume, then: AfterCall::Configure }
}

/// Suspending asks for the framework's procedure and for nothing else, and
/// ends in the outcome of that call, unchanged.
pub proof fn lemma_suspend_delegates(outcome: Result<u16, IoError>)
    ensures
        suspending().request() == Some(Request::Call { procedure: GenericProc::Suspend }),
        suspending().advance(outcome) == Phase::Finished(status(outcome)),
{
}

/// Resuming configures the chip after the framework's procedure, whether
/// that procedure succeeded or failed: what follows the call, and how the
/// run ends, is what configuring alone asks for and how it ends.
pub proof fn lemma_resume_always_configures(replies: Seq<Result<u16, IoError>>)
    requires
        replies.len() >= 1,
    ensures
        resuming().advance(replies[0]) == configuring(),
        resuming().requests(replies) == seq![Request::Call { procedure: GenericProc::Resume }]
            + configuring().requests(replies.skip(1)),
        resuming().run(replies) == configuring().run(replies.skip(1)),
{
}

} // verus!
