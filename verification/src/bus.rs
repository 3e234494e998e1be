//! Plain values that cross the boundary between the driver logic and the
//! host that owns the device.

use vstd::prelude::*;

verus! {

/// Failure of one transaction with the device or with the framework, as the
/// host reports it. The code is carried through unchanged.
#[derive(Clone, Copy, Debug, PartialEq, Eq, Structural)]
pub struct IoError {
    pub errno: i32,
}

/// One register write: the address and the value to store there.
#[derive(Clone, Copy, Debug, PartialEq, Eq, Structural)]
pub struct RegWrite {
    pub addr: u16,
    pub value: u16,
}

/// The standard procedures of the PHY framework that the driver hands work to.
#[derive(Clone, Copy, Debug, PartialEq, Eq, Structural)]
pub enum GenericProc {
    SoftReset,
    ConfigAneg,
    Suspend,
    Resume,
}

/// One operation that a procedure asks of its host.
#[derive(Clone, Copy, Debug, PartialEq, Eq, Structural)]
pub enum Request {
    /// Read the register at `addr`.
    Read { addr: u16 },
    /// Store `value` in the register at `addr`.
    Write { addr: u16, value: u16 },
    /// Run a standard procedure of the framework on the device.
    Call { procedure: GenericProc },
}

/// Requested cable polarity.
#[derive(Clone, Copy, Debug, PartialEq, Eq, Structural)]
pub enum Polarity {
    Mdi,
    MdiX,
    Auto,
    Invalid,
}

/// Operational state of the PHY, as far as the driver tells states apart.
#[derive(Clone, Copy, Debug, PartialEq, Eq, Structural)]
pub enum OperState {
    Running,
    Other,
}

/// What the framework knows of the link when it reports a change.
#[derive(Clone, Copy, Debug, PartialEq, Eq, Structural)]
pub struct LinkCondition {
    pub state: OperState,
    /// Negotiated speed in Mbps.
    pub speed: u32,
}

/// The request that stores `write`.
pub open spec fn write_request(write: RegWrite) -> Request {
    Request::Write { addr: write.addr, value: write.value }
}

/// The requests that store the writes of `script`, in order.
pub open spec fn write_requests(script: Seq<RegWrite>) -> Seq<Request> {
    Seq::new(script.len(), |i: int| write_request(script[i]))
}

/// The status part of an outcome: what is left of it for an operation that
/// yields no value.
pub open spec fn status(reply: Result<u16, IoError>) -> Result<(), IoError> {
    match reply {
        Ok(_) => Ok(()),
        Err(e) => Err(e),
    }
}

/// Drops the value of an outcome and keeps its status.
pub fn to_status(reply: Result<u16, IoError>) -> (outcome: Result<(), IoError>)
    ensures
        outcome == status(reply),
{
    match reply {
        Ok(_) => Ok(()),
        Err(e) => Err(e),
    }
}

} // verus!
