//! A device that works.
//!
//! The procedures are stated against every behaviour of the bus. This module
//! describes the one behaviour they are made for: every operation succeeds, a
//! read yields what the register holds, and a write replaces it. Against
//! such a device a procedure can be told by what it leaves in the registers.

use vstd::prelude::*;
use crate::analog::{analog_init_sequence, reinitializing};
use crate::bus::{IoError, LinkCondition, Polarity, RegWrite, Request};
use crate::config::{configure_sequence, configuring};
use crate::link::{notifying, reinit_due};
use crate::polarity::{forced, polarity_sequence, resolving};
use crate::power::resuming;
use crate::regs::{
    auto_mdix_cleared, A7CFG_CALIBRATION, MII_INTERNAL_CTRL_STATUS, SMI_ADDR_TSTCNTL,
    SMI_ADDR_TSTWRITE, TSTMODE_DISABLE, TSTMODE_ENABLE,
};
use crate::step::{sequenced, Caller, Phase};
use crate::test_mode::{enter_sequence, exit_sequence};

verus! {

/// Whether `regs` holds a value at every address, as the register file of a
/// device does.
pub open spec fn populated(regs: Map<u16, u16>) -> bool {
    forall|addr: u16| regs.dom().contains(addr)
}

/// What a working device with the registers `regs` replies to `request`.
pub open spec fn reply_of(regs: Map<u16, u16>, request: Request) -> Result<u16, IoError> {
    match request {
        Request::Read { addr } => Ok(regs[addr]),
        Request::Write { .. } => Ok(0),
        Request::Call { .. } => Ok(0),
    }
}

/// The registers of a working device after it has served `request`.
pub open spec fn effect_of(regs: Map<u16, u16>, request: Request) -> Map<u16, u16> {
    match request {
        Request::Read { .. } => regs,
        Request::Write { addr, value } => regs.insert(addr, value),
        Request::Call { .. } => regs,
    }
}

/// The registers after the writes of `script` have been stored in order.
pub open spec fn written(regs: Map<u16, u16>, script: Seq<RegWrite>) -> Map<u16, u16>
    decreases script.len(),
{
    if script.len() == 0 {
        regs
    } else {
        written(regs.insert(script[0].addr, script[0].value), script.skip(1))
    }
}

impl Phase {
    /// The phase reached, and the registers left, when a working device with
    /// the registers `regs` serves up to `steps` requests of the procedure.
    pub open spec fn served(self, regs: Map<u16, u16>, steps: nat) -> (Phase, Map<u16, u16>)
        decreases steps,
    {
        if steps == 0 || self.ended() {
            (self, regs)
        } else {
            let request = self.request().unwrap();
            self.advance(reply_of(regs, request)).served(
                effect_of(regs, request),
                (steps - 1) as nat,
            )
        }
    }
}

/// A working device stores every write of a sequence, in order, and the
/// sequence succeeds.
pub proof fn lemma_writes_served(script: Seq<RegWrite>, caller: Caller, regs: Map<u16, u16>)
    ensures
        sequenced(script, caller).served(regs, script.len()) == (
            caller.concluded(Ok(())),
            written(regs, script),
        ),
    decreases script.len(),
{
    if script.len() > 0 {
        lemma_writes_served(
            script.skip(1),
            caller,
            regs.insert(script[0].addr, script[0].value),
        );
    }
}

/// On a working device the analog setup succeeds. It leaves the calibration
/// word in the test-write register and the bank closed, and touches no other
/// register.
pub proof fn lemma_reinit_on_working_device(regs: Map<u16, u16>)
    ensures
        reinitializing(Caller::Direct).served(regs, 6) == (
            Phase::Finished(Ok(())),
            regs.insert(SMI_ADDR_TSTWRITE, A7CFG_CALIBRATION).insert(
                SMI_ADDR_TSTCNTL,
                TSTMODE_DISABLE,
            ),
        ),
{
    lemma_writes_served(analog_init_sequence(), Caller::Direct, regs);
    lemma_analog_init_written(regs);
}

/// The registers after the six writes of the analog setup.
proof fn lemma_analog_init_written(regs: Map<u16, u16>)
    ensures
        written(regs, analog_init_sequence()) == regs.insert(
            SMI_ADDR_TSTWRITE,
            A7CFG_CALIBRATION,
        ).insert(SMI_ADDR_TSTCNTL, TSTMODE_DISABLE),
{
    let s0 = analog_init_sequence();
    let s1 = s0.skip(1);
    let s2 = s1.skip(1);
    let s3 = s2.skip(1);
    let s4 = s3.skip(1);
    let s5 = s4.skip(1);
    let s6 = s5.skip(1);
    let r1 = regs.insert(s0[0].addr, s0[0].value);
    let r2 = r1.insert(s1[0].addr, s1[0].value);
    let r3 = r2.insert(s2[0].addr, s2[0].value);
    let r4 = r3.insert(s3[0].addr, s3[0].value);
    let r5 = r4.insert(s4[0].addr, s4[0].value);
    let r6 = r5.insert(s5[0].addr, s5[0].value);
    assert(written(r6, s6) == r6);
    assert(written(r5, s5) == r6);
    assert(written(r4, s4) == r6);
    assert(written(r3, s3) == r6);
    assert(written(r2, s2) == r6);
    assert(written(r1, s1) == r6);
    assert(written(regs, s0) == r6);
    assert(r6 =~= regs.insert(SMI_ADDR_TSTWRITE, A7CFG_CALIBRATION).insert(
        SMI_ADDR_TSTCNTL,
        TSTMODE_DISABLE,
    ));
}

/// On a working device configuring succeeds. It leaves the control/status
/// register as it was but for automatic detection, which is off; for the
/// rest it leaves what the analog setup leaves.
pub proof fn lemma_configure_on_working_device(regs: Map<u16, u16>)
    requires
        populated(regs),
    ensures
        configuring().served(regs, 8) == (
            Phase::Finished(Ok(())),
            regs.insert(
                MII_INTERNAL_CTRL_STATUS,
                auto_mdix_cleared(regs[MII_INTERNAL_CTRL_STATUS]),
            ).insert(SMI_ADDR_TSTWRITE, A7CFG_CALIBRATION).insert(
                SMI_ADDR_TSTCNTL,
                TSTMODE_DISABLE,
            ),
        ),
{
    let ctrl = regs[MII_INTERNAL_CTRL_STATUS];
    let script = configure_sequence(ctrl);
    let cleared = regs.insert(MII_INTERNAL_CTRL_STATUS, auto_mdix_cleared(ctrl));
    assert(configuring().served(regs, 8) == sequenced(script, Caller::Direct).served(regs, 7));
    lemma_writes_served(script, Caller::Direct, regs);
    assert(script.skip(1) =~= analog_init_sequence());
    assert(written(regs, script) == written(cleared, analog_init_sequence()));
    lemma_analog_init_written(cleared);
}

/// On a working device forcing a polarity succeeds. Where the mode is one
/// that is forced, the control/status register then holds the forced value,
/// whether or not a write was due; no other register is touched, and for
/// the other modes none at all.
pub proof fn lemma_polarity_on_working_device(regs: Map<u16, u16>, mode: Polarity)
    requires
        populated(regs),
    ensures
        resolving(mode, Caller::Direct).served(regs, 2) == (
            Phase::Finished(Ok(())),
            match forced(regs[MII_INTERNAL_CTRL_STATUS], mode) {
                Some(value) => regs.insert(MII_INTERNAL_CTRL_STATUS, value),
                None => regs,
            },
        ),
{
    let ctrl = regs[MII_INTERNAL_CTRL_STATUS];
    let script = polarity_sequence(ctrl, mode);
    assert(resolving(mode, Caller::Direct).served(regs, 2) == sequenced(
        script,
        Caller::Direct,
    ).served(regs, 1));
    lemma_writes_served(script, Caller::Direct, regs);
    if script.len() == 1 {
        let first = regs.insert(script[0].addr, script[0].value);
        assert(written(first, script.skip(1)) == first);
    } else {
        assert(regs.insert(MII_INTERNAL_CTRL_STATUS, ctrl) =~= regs);
    }
}

/// On a working device autonegotiation setup succeeds, and the framework's
/// own setup finds the control/status register holding the forced value
/// where the mode is one that is forced. No other register is touched.
pub proof fn lemma_config_aneg_on_working_device(regs: Map<u16, u16>, mode: Polarity)
    requires
        populated(regs),
    ensures
        resolving(mode, Caller::ConfigAneg).served(regs, 3).0 == Phase::Finished(Ok(())),
        resolving(mode, Caller::ConfigAneg).served(regs, 3).1 == resolving(
            mode,
            Caller::Direct,
        ).served(regs, 2).1,
{
    let ctrl = regs[MII_INTERNAL_CTRL_STATUS];
    let script = polarity_sequence(ctrl, mode);
    let left = written(regs, script);
    let calling = Caller::ConfigAneg.concluded(Ok(()));
    assert(resolving(mode, Caller::Direct).served(regs, 2) == sequenced(
        script,
        Caller::Direct,
    ).served(regs, 1));
    assert(resolving(mode, Caller::ConfigAneg).served(regs, 3) == sequenced(
        script,
        Caller::ConfigAneg,
    ).served(regs, 2));
    lemma_writes_served(script, Caller::Direct, regs);
    lemma_writes_served(script, Caller::ConfigAneg, regs);
    assert(calling.served(left, 1) == (Phase::Finished(Ok(())), left)) by {
        assert(calling.advance(Ok(0)).served(left, 0) == (Phase::Finished(Ok(())), left));
    }
    if script.len() == 1 {
        let first = regs.insert(script[0].addr, script[0].value);
        assert(sequenced(script, Caller::ConfigAneg).served(regs, 2) == sequenced(
            script.skip(1),
            Caller::ConfigAneg,
        ).served(first, 1));
        assert(written(first, script.skip(1)) == first);
        assert(sequenced(script.skip(1), Caller::ConfigAneg) == calling);
    } else {
        assert(Phase::Finished(Ok(())).served(left, 1) == (Phase::Finished(Ok(())), left));
    }
}

/// On a working device a notification of a link that runs at 100 Mbps
/// leaves what the analog setup leaves, and any other notification leaves
/// the registers as they are.
pub proof fn lemma_notify_on_working_device(regs: Map<u16, u16>, link: LinkCondition)
    ensures
        notifying(link).served(regs, 6) == (
            Phase::Finished(Ok(())),
            if reinit_due(link) {
                regs.insert(SMI_ADDR_TSTWRITE, A7CFG_CALIBRATION).insert(
                    SMI_ADDR_TSTCNTL,
                    TSTMODE_DISABLE,
                )
            } else {
                regs
            },
        ),
{
    if reinit_due(link) {
        lemma_writes_served(analog_init_sequence(), Caller::LinkChange, regs);
        lemma_analog_init_written(regs);
    }
}

/// A notification given a second time leaves the registers as the first
/// left them.
pub proof fn lemma_notify_twice(regs: Map<u16, u16>, link: LinkCondition)
    ensures
        notifying(link).served(notifying(link).served(regs, 6).1, 6) == notifying(link).served(
            regs,
            6,
        ),
{
    let once = notifying(link).served(regs, 6).1;
    lemma_notify_on_working_device(regs, link);
    lemma_notify_on_working_device(once, link);
    if reinit_due(link) {
        assert(once.insert(SMI_ADDR_TSTWRITE, A7CFG_CALIBRATION).insert(
            SMI_ADDR_TSTCNTL,
            TSTMODE_DISABLE,
        ) =~= once);
    }
}

/// On a working device resuming leaves what configuring leaves.
pub proof fn lemma_resume_on_working_device(regs: Map<u16, u16>)
    requires
        populated(regs),
    ensures
        resuming().served(regs, 9) == configuring().served(regs, 8),
{
}

/// Opening the bank a second time changes nothing: the registers are as
/// after the first time.
pub proof fn lemma_enter_twice(regs: Map<u16, u16>)
    ensures
        sequenced(enter_sequence(), Caller::Direct).served(regs, 3) == (
            Phase::Finished(Ok(())),
            regs.insert(SMI_ADDR_TSTCNTL, TSTMODE_ENABLE),
        ),
        sequenced(enter_sequence(), Caller::Direct).served(
            regs.insert(SMI_ADDR_TSTCNTL, TSTMODE_ENABLE),
            3,
        ) == (Phase::Finished(Ok(())), regs.insert(SMI_ADDR_TSTCNTL, TSTMODE_ENABLE)),
{
    lemma_enter_written(regs);
    lemma_enter_written(regs.insert(SMI_ADDR_TSTCNTL, TSTMODE_ENABLE));
    lemma_writes_served(enter_sequence(), Caller::Direct, regs);
    lemma_writes_served(
        enter_sequence(),
        Caller::Direct,
        regs.insert(SMI_ADDR_TSTCNTL, TSTMODE_ENABLE),
    );
    assert(regs.insert(SMI_ADDR_TSTCNTL, TSTMODE_ENABLE).insert(SMI_ADDR_TSTCNTL, TSTMODE_ENABLE)
        =~= regs.insert(SMI_ADDR_TSTCNTL, TSTMODE_ENABLE));
}

/// The registers after the three writes that open the bank.
proof fn lemma_enter_written(regs: Map<u16, u16>)
    ensures
        written(regs, enter_sequence()) == regs.insert(SMI_ADDR_TSTCNTL, TSTMODE_ENABLE),
{
    let s0 = enter_sequence();
    let s1 = s0.skip(1);
    let s2 = s1.skip(1);
    let s3 = s2.skip(1);
    let r1 = regs.insert(s0[0].addr, s0[0].value);
    let r2 = r1.insert(s1[0].addr, s1[0].value);
    let r3 = r2.insert(s2[0].addr, s2[0].value);
    assert(written(r3, s3) == r3);
    assert(written(r2, s2) == r3);
    assert(written(r1, s1) == r3);
    assert(written(regs, s0) == r3);
    assert(r3 =~= regs.insert(SMI_ADDR_TSTCNTL, TSTMODE_ENABLE));
}

/// Closing the bank leaves the test-control register disabled.
pub proof fn lemma_exit_on_working_device(regs: Map<u16, u16>)
    ensures
        sequenced(exit_sequence(), Caller::Direct).served(regs, 1) == (
            Phase::Finished(Ok(())),
            regs.insert(SMI_ADDR_TSTCNTL, TSTMODE_DISABLE),
        ),
{
    lemma_writes_served(exit_sequence(), Caller::Direct, regs);
    let script = exit_sequence();
    assert(written(regs.insert(script[0].addr, script[0].value), script.skip(1)) == regs.insert(
        script[0].addr,
        script[0].value,
    ));
}

} // verus!
