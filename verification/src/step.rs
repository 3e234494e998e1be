//! Procedures as resumable computations.
//!
//! A procedure never touches the device. It yields a [`Step`]: either the
//! next operation for the host to perform, together with the continuation
//! that takes the outcome of that operation, or the end of the procedure. The
//! type of a continuation fixes the type of the outcome it accepts, and a
//! continuation is consumed when it is resumed.
//!
//! Each executable type is viewed as a mathematical value: a [`Step`] as a
//! [`Phase`], whose pending writes are a `Seq`. The transition functions on
//! phases say what the executable functions compute.

use vstd::prelude::*;
use crate::bus::{GenericProc, IoError, Polarity, RegWrite, Request};
use crate::config::{configure, configure_sequence, configure_writes, configuring};
use crate::polarity::{polarity_sequence, polarity_writes};

verus! {

/// On whose behalf a helper runs, which decides what becomes of its result.
#[derive(Clone, Copy, Debug, PartialEq, Eq, Structural)]
pub enum Caller {
    /// The result is the result of the whole procedure.
    Direct,
    /// The link-change notification: it has no way to return a failure, so a
    /// failure is handed out for logging and goes no further.
    LinkChange,
    /// Autonegotiation setup: after success the framework's own setup runs;
    /// a failure ends the procedure.
    ConfigAneg,
}

/// Continuation of a register read.
#[derive(Debug, PartialEq, Eq)]
pub enum AfterRead {
    /// The control/status register was read to configure the chip.
    Configure,
    /// The control/status register was read to force the polarity `mode`.
    Polarity { mode: Polarity, caller: Caller },
}

/// Continuation of a register write: the writes still to come, and the
/// caller that takes the result of the sequence.
#[derive(Debug, PartialEq, Eq)]
pub struct AfterWrite {
    pub rest: Vec<RegWrite>,
    pub caller: Caller,
}

/// Continuation of a call into the framework.
#[derive(Debug, PartialEq, Eq)]
pub enum AfterCall {
    /// The outcome of the call is the result of the procedure.
    Return,
    /// The outcome of the call is dropped and the chip is configured.
    Configure,
}

/// What a procedure asks for next, or how it ended.
#[derive(Debug, PartialEq, Eq)]
#[allow(inconsistent_fields)]
pub enum Step {
    /// Read the register at `addr` and resume `then` with the outcome.
    Read { addr: u16, then: AfterRead },
    /// Store `value` at `addr` and resume `then` with the outcome.
    Write { addr: u16, value: u16, then: AfterWrite },
    /// Run `procedure` on the device and resume `then` with the outcome.
    Call { procedure: GenericProc, then: AfterCall },
    /// The procedure ended and this is its result.
    Finished(Result<(), IoError>),
    /// The procedure ended in a failure that its caller must not see: the
    /// host logs the error and reports nothing.
    Suppressed(IoError),
}

/// Mathematical value of an [`AfterWrite`].
pub struct PendingWrites {
    pub rest: Seq<RegWrite>,
    pub caller: Caller,
}

/// Mathematical value of a [`Step`].
#[allow(inconsistent_fields)]
pub enum Phase {
    Read { addr: u16, then: AfterRead },
    Write { addr: u16, value: u16, then: PendingWrites },
    Call { procedure: GenericProc, then: AfterCall },
    Finished(Result<(), IoError>),
    Suppressed(IoError),
}

impl View for AfterWrite {
    type V = PendingWrites;

    open spec fn view(&self) -> PendingWrites {
        PendingWrites { rest: self.rest@, caller: self.caller }
    }
}

impl View for Step {
    type V = Phase;

    open spec fn view(&self) -> Phase {
        match *self {
            Step::Read { addr, then } => Phase::Read { addr, then },
            Step::Write { addr, value, then } => Phase::Write { addr, value, then: then@ },
            Step::Call { procedure, then } => Phase::Call { procedure, then },
            Step::Finished(result) => Phase::Finished(result),
            Step::Suppressed(error) => Phase::Suppressed(error),
        }
    }
}

impl Caller {
    /// The phase that a helper's `result` leads to under this caller.
    pub open spec fn concluded(self, result: Result<(), IoError>) -> Phase {
        match self {
            Caller::Direct => Phase::Finished(result),
            Caller::LinkChange => match result {
                Ok(_) => Phase::Finished(Ok(())),
                Err(error) => Phase::Suppressed(error),
            },
            Caller::ConfigAneg => match result {
                Ok(_) => Phase::Call {
                    procedure: GenericProc::ConfigAneg,
                    then: AfterCall::Return,
                },
                Err(error) => Phase::Finished(Err(error)),
            },
        }
    }

    /// Ends a helper whose result is `result`.
    pub fn conclude(self, result: Result<(), IoError>) -> (step: Step)
        ensures
            step@ == self.concluded(result),
    {
        match self {
            Caller::Direct => Step::Finished(result),
            Caller::LinkChange => match result {
                Ok(_) => Step::Finished(Ok(())),
                Err(error) => Step::Suppressed(error),
            },
            Caller::ConfigAneg => match result {
                Ok(_) => Step::Call { procedure: GenericProc::ConfigAneg, then: AfterCall::Return },
                Err(error) => Step::Finished(Err(error)),
            },
        }
    }
}

/// The phase in which the writes of `script` are to be made in order: the
/// first of them is asked for, or, where there is none, the sequence has
/// succeeded.
pub open spec fn sequenced(script: Seq<RegWrite>, caller: Caller) -> Phase {
    if script.len() == 0 {
        caller.concluded(Ok(()))
    } else {
        Phase::Write {
            addr: script[0].addr,
            value: script[0].value,
            then: PendingWrites { rest: script.skip(1), caller },
        }
    }
}

/// Starts the writes of `script`, to be made in order up to the first that
/// fails.
pub fn issue_writes(script: Vec<RegWrite>, caller: Caller) -> (step: Step)
    ensures
        step@ == sequenced(script@, caller),
{
    let mut rest = script;
    if rest.len() == 0 {
        caller.conclude(Ok(()))
    } else {
        let first = rest.remove(0);
        assert(rest@ =~= script@.skip(1));
        Step::Write { addr: first.addr, value: first.value, then: AfterWrite { rest, caller } }
    }
}

impl PendingWrites {
    /// The phase after the write that was asked for met `outcome`: the next
    /// write after success, the end of the sequence after a failure.
    pub open spec fn resumed(self, outcome: Result<(), IoError>) -> Phase {
        match outcome {
            Ok(_) => sequenced(self.rest, self.caller),
            Err(error) => self.caller.concluded(Err(error)),
        }
    }
}

impl AfterWrite {
    /// Takes the outcome of the write that was asked for.
    pub fn proceed(self, outcome: Result<(), IoError>) -> (step: Step)
        ensures
            step@ == self@.resumed(outcome),
    {
        match outcome {
            Ok(_) => issue_writes(self.rest, self.caller),
            Err(error) => self.caller.conclude(Err(error)),
        }
    }
}

impl AfterRead {
    /// The phase after the read that was asked for met `outcome`.
    pub open spec fn resumed(self, outcome: Result<u16, IoError>) -> Phase {
        match self {
            AfterRead::Configure => match outcome {
                Ok(ctrl) => sequenced(configure_sequence(ctrl), Caller::Direct),
                Err(error) => Phase::Finished(Err(error)),
            },
            AfterRead::Polarity { mode, caller } => match outcome {
                Ok(ctrl) => sequenced(polarity_sequence(ctrl, mode), caller),
                Err(error) => caller.concluded(Err(error)),
            },
        }
    }

    /// Takes the outcome of the read that was asked for.
    pub fn proceed(self, outcome: Result<u16, IoError>) -> (step: Step)
        ensures
            step@ == self.resumed(outcome),
    {
        match self {
            AfterRead::Configure => match outcome {
                Ok(ctrl) => issue_writes(configure_writes(ctrl), Caller::Direct),
                Err(error) => Step::Finished(Err(error)),
            },
            AfterRead::Polarity { mode, caller } => match outcome {
                Ok(ctrl) => issue_writes(polarity_writes(ctrl, mode), caller),
                Err(error) => caller.conclude(Err(error)),
            },
        }
    }
}

impl AfterCall {
    /// The phase after the call that was asked for met `outcome`.
    pub open spec fn resumed(self, outcome: Result<(), IoError>) -> Phase {
        match self {
            AfterCall::Return => Phase::Finished(outcome),
            AfterCall::Configure => configuring(),
        }
    }

    /// Takes the outcome of the call that was asked for.
    pub fn proceed(self, outcome: Result<(), IoError>) -> (step: Step)
        ensures
            step@ == self.resumed(outcome),
    {
        match self {
            AfterCall::Return => Step::Finished(outcome),
            AfterCall::Configure => configure(),
        }
    }
}

impl Phase {
    /// The operation that is asked of the host, if the procedure has not ended.
    pub open spec fn request(self) -> Option<Request> {
        match self {
            Phase::Read { addr, .. } => Some(Request::Read { addr }),
            Phase::Write { addr, value, .. } => Some(Request::Write { addr, value }),
            Phase::Call { procedure, .. } => Some(Request::Call { procedure }),
            Phase::Finished(_) => None,
            Phase::Suppressed(_) => None,
        }
    }
}

impl Step {
    /// The operation that is asked of the host, if the procedure has not ended.
    pub fn request(&self) -> (request: Option<Request>)
        ensures
            request == self@.request(),
    {
        match self {
            Step::Read { addr, .. } => Some(Request::Read { addr: *addr }),
            Step::Write { addr, value, .. } => Some(Request::Write { addr: *addr, value: *value }),
            Step::Call { procedure, .. } => Some(Request::Call { procedure: *procedure }),
            Step::Finished(_) => None,
            Step::Suppressed(_) => None,
        }
    }
}

} // verus!
