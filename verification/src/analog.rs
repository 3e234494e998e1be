//! Setup of the analog front end.
//!
//! The chip keeps its analog parameters in the vendor's private bank and
//! loses them when it switches between 10 and 100 Mbps operation. This module
//! holds the one procedure that stores them again.

use vstd::prelude::*;
use crate::bus::{write_request, write_requests, IoError, RegWrite, Request};
use crate::regs::{
    A7CFG_CALIBRATION, MII_INTERNAL_CTRL_STATUS, SMI_ADDR_TSTCNTL, SMI_ADDR_TSTWRITE, TSTCNTL_WR,
    TSTMODE_DISABLE, TSTMODE_ENABLE, WR_ADDR_A7CFG,
};
use crate::step::{issue_writes, sequenced, Caller, Phase, Step};
use crate::test_mode::{enter_sequence, enter_writes, exit_sequence, exit_writes};
use crate::trace::{
    lemma_run_in_two_parts, lemma_writes_complete, lemma_writes_follow_script,
    lemma_writes_stop_at_failure,
};

verus! {

/// The six writes of the setup: enable, disable, enable, the calibration
/// word, the command that commits it to the analog parameter, disable.
pub open spec fn analog_init_sequence() -> Seq<RegWrite> {
    seq![
        RegWrite { addr: SMI_ADDR_TSTCNTL, value: TSTMODE_ENABLE },
        RegWrite { addr: SMI_ADDR_TSTCNTL, value: TSTMODE_DISABLE },
        RegWrite { addr: SMI_ADDR_TSTCNTL, value: TSTMODE_ENABLE },
        RegWrite { addr: SMI_ADDR_TSTWRITE, value: A7CFG_CALIBRATION },
        RegWrite { addr: SMI_ADDR_TSTCNTL, value: TSTCNTL_WR | WR_ADDR_A7CFG },
        RegWrite { addr: SMI_ADDR_TSTCNTL, value: TSTMODE_DISABLE },
    ]
}

/// The phase in which the setup begins on behalf of `caller`.
pub open spec fn reinitializing(caller: Caller) -> Phase {
    sequenced(analog_init_sequence(), caller)
}

/// The setup is the two writes to the analog bank, made between opening the
/// bank and closing it.
pub proof fn lemma_analog_init_inside_test_mode()
    ensures
        analog_init_sequence() == enter_sequence() + seq![
            RegWrite { addr: SMI_ADDR_TSTWRITE, value: A7CFG_CALIBRATION },
            RegWrite { addr: SMI_ADDR_TSTCNTL, value: TSTCNTL_WR | WR_ADDR_A7CFG },
        ] + exit_sequence(),
{
    assert(analog_init_sequence() =~= enter_sequence() + seq![
        RegWrite { addr: SMI_ADDR_TSTWRITE, value: A7CFG_CALIBRATION },
        RegWrite { addr: SMI_ADDR_TSTCNTL, value: TSTCNTL_WR | WR_ADDR_A7CFG },
    ] + exit_sequence());
}

/// The setup leaves the control/status register alone.
pub proof fn lemma_analog_init_spares_ctrl()
    ensures
        forall|i: int|
            0 <= i < 6 ==> (#[trigger] analog_init_sequence()[i]).addr != MII_INTERNAL_CTRL_STATUS,
{
}

/// Builds the writes of the setup.
pub fn reinit_writes() -> (script: Vec<RegWrite>)
    ensures
        script@ == analog_init_sequence(),
{
    let mut script = enter_writes();
    script.push(RegWrite { addr: SMI_ADDR_TSTWRITE, value: A7CFG_CALIBRATION });
    script.push(RegWrite { addr: SMI_ADDR_TSTCNTL, value: TSTCNTL_WR | WR_ADDR_A7CFG });
    let mut closing = exit_writes();
    script.append(&mut closing);
    assert(script@ =~= analog_init_sequence());
    script
}

/// Starts the setup of the analog front end on behalf of `caller`, which
/// takes its result.
pub fn reinit_analog_for(caller: Caller) -> (step: Step)
    ensures
        step@ == reinitializing(caller),
{
    issue_writes(reinit_writes(), caller)
}

/// Starts the setup of the analog front end. A write that fails ends the
/// procedure with that failure, and the writes after it are not made: the
/// bank is then left as the chip has it.
pub fn reinit_analog() -> (step: Step)
    ensures
        step@ == reinitializing(Caller::Direct),
{
    reinit_analog_for(Caller::Direct)
}

/// Where all six writes succeed, the setup asks for exactly these, in this
/// order: enable, disable, enable, the calibration word, the commit, disable;
/// and it ends in success.
pub proof fn lemma_reinit_order(replies: Seq<Result<u16, IoError>>)
    requires
        replies.len() == 6,
        forall|i: int| 0 <= i < 6 ==> replies[i] is Ok,
    ensures
        reinitializing(Caller::Direct).requests(replies) == seq![
            Request::Write { addr: SMI_ADDR_TSTCNTL, value: TSTMODE_ENABLE },
            Request::Write { addr: SMI_ADDR_TSTCNTL, value: TSTMODE_DISABLE },
            Request::Write { addr: SMI_ADDR_TSTCNTL, value: TSTMODE_ENABLE },
            Request::Write { addr: SMI_ADDR_TSTWRITE, value: A7CFG_CALIBRATION },
            Request::Write { addr: SMI_ADDR_TSTCNTL, value: TSTCNTL_WR | WR_ADDR_A7CFG },
            Request::Write { addr: SMI_ADDR_TSTCNTL, value: TSTMODE_DISABLE },
        ],
        reinitializing(Caller::Direct).run(replies) == Phase::Finished(Ok(())),
{
    lemma_writes_complete(analog_init_sequence(), Caller::Direct, replies);
    assert(write_requests(analog_init_sequence()) =~= seq![
        Request::Write { addr: SMI_ADDR_TSTCNTL, value: TSTMODE_ENABLE },
        Request::Write { addr: SMI_ADDR_TSTCNTL, value: TSTMODE_DISABLE },
        Request::Write { addr: SMI_ADDR_TSTCNTL, value: TSTMODE_ENABLE },
        Request::Write { addr: SMI_ADDR_TSTWRITE, value: A7CFG_CALIBRATION },
        Request::Write { addr: SMI_ADDR_TSTCNTL, value: TSTCNTL_WR | WR_ADDR_A7CFG },
        Request::Write { addr: SMI_ADDR_TSTCNTL, value: TSTMODE_DISABLE },
    ]);
}

/// Where the write at position `k` of the six is the first to fail, the
/// setup asks for the first `k + 1` of its writes, in order, and for nothing
/// after the one that failed, the closing write included where it was not
/// reached; and it ends in the failure of that write.
pub proof fn lemma_reinit_stops_at_failure(replies: Seq<Result<u16, IoError>>, k: int)
    requires
        0 <= k < 6,
        k < replies.len(),
        replies[k] is Err,
        forall|i: int| 0 <= i < k ==> replies[i] is Ok,
    ensures
        reinitializing(Caller::Direct).requests(replies) == write_requests(
            analog_init_sequence().take(k + 1),
        ),
        reinitializing(Caller::Direct).requests(replies).len() == k + 1,
        reinitializing(Caller::Direct).run(replies) == Phase::Finished(Err(replies[k]->Err_0)),
{
    lemma_writes_stop_at_failure(analog_init_sequence(), Caller::Direct, replies, k);
}

/// In every run of the setup, whatever the device does, the analog bank is
/// written only while it is open: a write to the test-write register is the
/// fourth request, and the three writes that open the bank were made before
/// it and have succeeded.
pub proof fn lemma_bank_written_only_when_open(
    caller: Caller,
    replies: Seq<Result<u16, IoError>>,
    p: int,
)
    requires
        0 <= p < reinitializing(caller).requests(replies).len(),
        reinitializing(caller).requests(replies)[p] matches Request::Write { addr, .. } && addr
            == SMI_ADDR_TSTWRITE,
    ensures
        p == 3,
        forall|i: int|
            0 <= i < 3 ==> reinitializing(caller).requests(replies)[i] == write_request(
                enter_sequence()[i],
            ) && (#[trigger] replies[i]) is Ok,
{
    lemma_writes_follow_script(analog_init_sequence(), caller, replies);
    let asked = reinitializing(caller).requests(replies);
    if p < 6 {
        assert(asked[p] == write_request(analog_init_sequence()[p]));
    } else {
        assert(caller == Caller::ConfigAneg);
        lemma_writes_complete(analog_init_sequence(), caller, replies.take(6));
        lemma_run_in_two_parts(reinitializing(caller), replies.take(6), replies.skip(6));
        assert(replies =~= replies.take(6) + replies.skip(6));
    }
    assert forall|i: int| 0 <= i < 3 implies asked[i] == write_request(enter_sequence()[i]) by {
        assert(asked[i] == write_request(analog_init_sequence()[i]));
    }
}

} // verus!
