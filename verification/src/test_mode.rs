//! Access to the analog/DSP register bank of the chip.
//!
//! The bank is reachable only between an opening and a closing write to the
//! test-control register. Opening takes three writes: the chip latches the
//! bank selection reliably only after enable, disable, enable.

use vstd::prelude::*;
use crate::bus::RegWrite;
use crate::regs::{SMI_ADDR_TSTCNTL, TSTMODE_DISABLE, TSTMODE_ENABLE};
use crate::step::{issue_writes, sequenced, Caller, Step};

verus! {

/// The writes that open the bank.
pub open spec fn enter_sequence() -> Seq<RegWrite> {
    seq![
        RegWrite { addr: SMI_ADDR_TSTCNTL, value: TSTMODE_ENABLE },
        RegWrite { addr: SMI_ADDR_TSTCNTL, value: TSTMODE_DISABLE },
        RegWrite { addr: SMI_ADDR_TSTCNTL, value: TSTMODE_ENABLE },
    ]
}

/// The write that closes the bank.
pub open spec fn exit_sequence() -> Seq<RegWrite> {
    seq![RegWrite { addr: SMI_ADDR_TSTCNTL, value: TSTMODE_DISABLE }]
}

/// Builds the writes that open the bank.
pub fn enter_writes() -> (script: Vec<RegWrite>)
    ensures
        script@ == enter_sequence(),
{
    let mut script: Vec<RegWrite> = Vec::new();
    script.push(RegWrite { addr: SMI_ADDR_TSTCNTL, value: TSTMODE_ENABLE });
    script.push(RegWrite { addr: SMI_ADDR_TSTCNTL, value: TSTMODE_DISABLE });
    script.push(RegWrite { addr: SMI_ADDR_TSTCNTL, value: TSTMODE_ENABLE });
    assert(script@ =~= enter_sequence());
    script
}

/// Builds the write that closes the bank.
pub fn exit_writes() -> (script: Vec<RegWrite>)
    ensures
        script@ == exit_sequence(),
{
    let mut script: Vec<RegWrite> = Vec::new();
    script.push(RegWrite { addr: SMI_ADDR_TSTCNTL, value: TSTMODE_DISABLE });
    assert(script@ =~= exit_sequence());
    script
}

/// Starts opening the bank. A write that fails ends the procedure with that
/// failure; nothing is undone.
pub fn enter() -> (step: Step)
    ensures
        step@ == sequenced(enter_sequence(), Caller::Direct),
{
    issue_writes(enter_writes(), Caller::Direct)
}

/// Starts closing the bank.
pub fn exit() -> (step: Step)
    ensures
        step@ == sequenced(exit_sequence(), Caller::Direct),
{
    issue_writes(exit_writes(), Caller::Direct)
}

} // verus!
