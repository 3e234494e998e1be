//! Configuration of the chip when the driver attaches to it, and again after
//! the device wakes up.

use vstd::prelude::*;
use crate::analog::{analog_init_sequence, reinit_writes};
use crate::bus::{write_requests, IoError, RegWrite, Request};
use crate::regs::{
    auto_mdix_cleared, clear_auto_mdix, lemma_auto_mdix_cleared, MII_AUTO_MDIX_EN,
    MII_INTERNAL_CTRL_STATUS,
};
use crate::step::{sequenced, AfterRead, Caller, PendingWrites, Phase, Step};
use crate::trace::{lemma_ended_is_final, lemma_writes_complete, lemma_writes_stop_at_failure};

verus! {

/// The writes that configure a chip whose control/status register holds
/// `ctrl`: automatic polarity detection is switched off, since the driver
/// forces the polarity itself, and the analog front end is set up.
pub open spec fn configure_sequence(ctrl: u16) -> Seq<RegWrite> {
    seq![RegWrite { addr: MII_INTERNAL_CTRL_STATUS, value: auto_mdix_cleared(ctrl) }]
        + analog_init_sequence()
}

/// The phase in which configuration begins: the control/status register is
/// read, and its content decides the first write.
pub open spec fn configuring() -> Phase {
    Phase::Read { addr: MII_INTERNAL_CTRL_STATUS, then: AfterRead::Configure }
}

/// Builds the writes that configure a chip whose control/status register
/// holds `ctrl`.
pub fn configure_writes(ctrl: u16) -> (script: Vec<RegWrite>)
    ensures
        script@ == configure_sequence(ctrl),
{
    let mut script: Vec<RegWrite> = Vec::new();
    script.push(RegWrite { addr: MII_INTERNAL_CTRL_STATUS, value: clear_auto_mdix(ctrl) });
    let mut analog = reinit_writes();
    script.append(&mut analog);
    assert(script@ =~= configure_sequence(ctrl));
    script
}

/// Starts the configuration. The register is read afresh each time; a read
/// or write that fails ends the procedure with that failure.
pub fn configure() -> (step: Step)
    ensures
        step@ == configuring(),
{
    Step::Read { addr: MII_INTERNAL_CTRL_STATUS, then: AfterRead::Configure }
}

/// Once the register has been read as `ctrl`, configuring first writes the
/// register back with automatic detection off, whatever that bit was, and
/// with every other bit as it was read. The analog setup follows.
pub proof fn lemma_configure_clears_auto_mdix(ctrl: u16)
    ensures
        configuring().advance(Ok(ctrl)) == (Phase::Write {
            addr: MII_INTERNAL_CTRL_STATUS,
            value: auto_mdix_cleared(ctrl),
            then: PendingWrites { rest: analog_init_sequence(), caller: Caller::Direct },
        }),
        auto_mdix_cleared(ctrl) & MII_AUTO_MDIX_EN == 0,
        auto_mdix_cleared(ctrl) | MII_AUTO_MDIX_EN == ctrl | MII_AUTO_MDIX_EN,
{
    lemma_auto_mdix_cleared(ctrl);
    assert(configure_sequence(ctrl).skip(1) =~= analog_init_sequence());
}

/// Where the read fails, configuring ends in that failure and writes
/// nothing.
pub proof fn lemma_configure_read_failure(replies: Seq<Result<u16, IoError>>)
    requires
        replies.len() >= 1,
        replies[0] is Err,
    ensures
        configuring().requests(replies) == seq![Request::Read { addr: MII_INTERNAL_CTRL_STATUS }],
        configuring().run(replies) == Phase::Finished(Err(replies[0]->Err_0)),
{
    lemma_ended_is_final(configuring().advance(replies[0]), replies.skip(1));
    assert(configuring().requests(replies) =~= seq![
        Request::Read { addr: MII_INTERNAL_CTRL_STATUS },
    ]);
}

/// Where the read and all seven writes succeed, configuring asks for the
/// read, the write that switches automatic detection off and the six writes
/// of the analog setup, in this order, and ends in success.
pub proof fn lemma_configure_completes(replies: Seq<Result<u16, IoError>>)
    requires
        replies.len() == 8,
        forall|i: int| 0 <= i < 8 ==> replies[i] is Ok,
    ensures
        configuring().requests(replies) == seq![Request::Read { addr: MII_INTERNAL_CTRL_STATUS }]
            + write_requests(configure_sequence(replies[0]->Ok_0)),
        configuring().run(replies) == Phase::Finished(Ok(())),
{
    let ctrl = replies[0]->Ok_0;
    let writing = sequenced(configure_sequence(ctrl), Caller::Direct);
    assert(configuring().advance(replies[0]) == writing);
    lemma_writes_complete(configure_sequence(ctrl), Caller::Direct, replies.skip(1));
}

/// Where the read succeeds and the write at position `k` of the seven is the
/// first to fail, configuring asks for the read and the first `k + 1` writes
/// and ends in the failure of that write.
pub proof fn lemma_configure_stops_at_failure(replies: Seq<Result<u16, IoError>>, k: int)
    requires
        0 <= k < 7,
        k + 1 < replies.len(),
        replies[k + 1] is Err,
        forall|i: int| 0 <= i < k + 1 ==> replies[i] is Ok,
    ensures
        configuring().requests(replies) == seq![Request::Read { addr: MII_INTERNAL_CTRL_STATUS }]
            + write_requests(configure_sequence(replies[0]->Ok_0).take(k + 1)),
        configuring().run(replies) == Phase::Finished(Err(replies[k + 1]->Err_0)),
{
    let ctrl = replies[0]->Ok_0;
    let writing = sequenced(configure_sequence(ctrl), Caller::Direct);
    assert(configuring().advance(replies[0]) == writing);
    assert forall|i: int| 0 <= i < k implies replies.skip(1)[i] is Ok by {
        assert(replies.skip(1)[i] == replies[i + 1]);
    }
    lemma_writes_stop_at_failure(configure_sequence(ctrl), Caller::Direct, replies.skip(1), k);
}

} // verus!
