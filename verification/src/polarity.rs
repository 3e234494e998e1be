//! Forcing the cable polarity.

use vstd::prelude::*;
use crate::bus::{status, write_requests, IoError, Polarity, RegWrite, Request};
use crate::regs::{
    auto_mdix_cleared, clear_auto_mdix, lemma_auto_mdix_cleared, MII_AUTO_MDIX_EN,
    MII_INTERNAL_CTRL_STATUS, MII_MDIX_EN,
};
use crate::step::{sequenced, AfterRead, Caller, PendingWrites, Phase, Step};
use crate::trace::{lemma_ended_is_final, lemma_writes_complete, lemma_writes_stop_at_failure};

verus! {

/// The control/status value that forces `mode` on a chip whose register
/// holds `ctrl`. Only MDI and MDI-X are forced; the other modes are left to
/// the framework.
pub open spec fn forced(ctrl: u16, mode: Polarity) -> Option<u16> {
    match mode {
        Polarity::Mdi => Some(auto_mdix_cleared(ctrl) & !MII_MDIX_EN),
        Polarity::MdiX => Some(auto_mdix_cleared(ctrl) | MII_MDIX_EN),
        Polarity::Auto => None,
        Polarity::Invalid => None,
    }
}

/// The writes that put `mode` into effect: the forced value, unless the
/// register holds it already.
pub open spec fn polarity_sequence(ctrl: u16, mode: Polarity) -> Seq<RegWrite> {
    match forced(ctrl, mode) {
        Some(value) => if value != ctrl {
            seq![RegWrite { addr: MII_INTERNAL_CTRL_STATUS, value }]
        } else {
            Seq::empty()
        },
        None => Seq::empty(),
    }
}

/// The phase in which the polarity `mode` is about to be applied on behalf
/// of `caller`: the control/status register is read first.
pub open spec fn resolving(mode: Polarity, caller: Caller) -> Phase {
    Phase::Read { addr: MII_INTERNAL_CTRL_STATUS, then: AfterRead::Polarity { mode, caller } }
}

/// Computes the control/status value that forces `mode`, if `mode` is one
/// that is forced.
pub fn forced_value(ctrl: u16, mode: Polarity) -> (value: Option<u16>)
    ensures
        value == forced(ctrl, mode),
{
    let baseline = clear_auto_mdix(ctrl);
    match mode {
        Polarity::Mdi => Some(baseline & !MII_MDIX_EN),
        Polarity::MdiX => Some(baseline | MII_MDIX_EN),
        // Selection by the chip, and a mode that is not known: neither is
        // forced here.
        Polarity::Auto => None,
        Polarity::Invalid => None,
    }
}

/// Builds the writes that put `mode` into effect on a chip whose
/// control/status register holds `ctrl`: none where the mode is not forced
/// or the register already holds the forced value.
pub fn polarity_writes(ctrl: u16, mode: Polarity) -> (script: Vec<RegWrite>)
    ensures
        script@ == polarity_sequence(ctrl, mode),
{
    let mut script: Vec<RegWrite> = Vec::new();
    if let Some(value) = forced_value(ctrl, mode) {
        if value != ctrl {
            script.push(RegWrite { addr: MII_INTERNAL_CTRL_STATUS, value });
        }
    }
    assert(script@ =~= polarity_sequence(ctrl, mode));
    script
}

/// Starts applying the polarity `mode` on behalf of `caller`, which takes
/// the result.
pub fn resolve_polarity_for(mode: Polarity, caller: Caller) -> (step: Step)
    ensures
        step@ == resolving(mode, caller),
{
    Step::Read { addr: MII_INTERNAL_CTRL_STATUS, then: AfterRead::Polarity { mode, caller } }
}

/// Starts applying the polarity `mode`. A read or write that fails ends the
/// procedure with that failure.
pub fn resolve_polarity(mode: Polarity) -> (step: Step)
    ensures
        step@ == resolving(mode, Caller::Direct),
{
    resolve_polarity_for(mode, Caller::Direct)
}

/// A forced value has automatic detection off, has the MDI-X bit off for
/// MDI and on for MDI-X, and has every other bit as the register had it.
/// Automatic selection and an invalid mode force nothing.
pub proof fn lemma_forced_bits(ctrl: u16, mode: Polarity)
    ensures
        mode == Polarity::Mdi ==> forced(ctrl, mode) is Some && forced(ctrl, mode).unwrap()
            & MII_MDIX_EN == 0,
        mode == Polarity::MdiX ==> forced(ctrl, mode) is Some && forced(ctrl, mode).unwrap()
            & MII_MDIX_EN == MII_MDIX_EN,
        mode == Polarity::Auto || mode == Polarity::Invalid ==> forced(ctrl, mode) is None,
        forced(ctrl, mode) matches Some(value) ==> value & MII_AUTO_MDIX_EN == 0 && value | (
        MII_AUTO_MDIX_EN | MII_MDIX_EN) == ctrl | (MII_AUTO_MDIX_EN | MII_MDIX_EN),
{
    assert(((!0x80u16 & ctrl) & !0x40u16) & 0x40u16 == 0) by (bit_vector);
    assert(((!0x80u16 & ctrl) & !0x40u16) & 0x80u16 == 0) by (bit_vector);
    assert(((!0x80u16 & ctrl) & !0x40u16) | (0x80u16 | 0x40u16) == ctrl | (0x80u16 | 0x40u16))
        by (bit_vector);
    assert(((!0x80u16 & ctrl) | 0x40u16) & 0x40u16 == 0x40u16) by (bit_vector);
    assert(((!0x80u16 & ctrl) | 0x40u16) & 0x80u16 == 0) by (bit_vector);
    assert(((!0x80u16 & ctrl) | 0x40u16) | (0x80u16 | 0x40u16) == ctrl | (0x80u16 | 0x40u16))
        by (bit_vector);
}

/// Where automatic detection is already off in the register, as it is once
/// the chip has been configured, clearing it changes nothing: the forced
/// value then differs from the register exactly when it differs from the
/// register with automatic detection cleared.
pub proof fn lemma_forced_against_baseline(ctrl: u16, mode: Polarity)
    requires
        ctrl & MII_AUTO_MDIX_EN == 0,
    ensures
        forced(ctrl, mode) == Some(ctrl) <==> forced(ctrl, mode) == Some(auto_mdix_cleared(ctrl)),
{
    lemma_auto_mdix_cleared(ctrl);
}

/// Once the register has been read as `ctrl`, a write is asked for if and
/// only if `mode` is forced and the forced value differs from `ctrl`. The
/// write stores the forced value in the control/status register, with the
/// MDI-X bit off for MDI and on for MDI-X, and is the last. Where no write is
/// due, as always for automatic selection and for an invalid mode, the
/// procedure has succeeded.
pub proof fn lemma_polarity_writes_iff_changed(ctrl: u16, mode: Polarity)
    ensures
        resolving(mode, Caller::Direct).advance(Ok(ctrl)) is Write <==> forced(ctrl, mode)
            is Some && forced(ctrl, mode) != Some(ctrl),
        resolving(mode, Caller::Direct).advance(Ok(ctrl)) is Write ==> resolving(
            mode,
            Caller::Direct,
        ).advance(Ok(ctrl)) == (Phase::Write {
            addr: MII_INTERNAL_CTRL_STATUS,
            value: forced(ctrl, mode).unwrap(),
            then: PendingWrites { rest: Seq::empty(), caller: Caller::Direct },
        }),
        !(resolving(mode, Caller::Direct).advance(Ok(ctrl)) is Write) ==> resolving(
            mode,
            Caller::Direct,
        ).advance(Ok(ctrl)) == Phase::Finished(Ok(())),
        mode == Polarity::Mdi ==> forced(ctrl, mode).unwrap() & MII_MDIX_EN == 0,
        mode == Polarity::MdiX ==> forced(ctrl, mode).unwrap() & MII_MDIX_EN == MII_MDIX_EN,
        mode == Polarity::Auto || mode == Polarity::Invalid ==> !(resolving(
            mode,
            Caller::Direct,
        ).advance(Ok(ctrl)) is Write),
{
    lemma_forced_bits(ctrl, mode);
    let script = polarity_sequence(ctrl, mode);
    if script.len() > 0 {
        assert(script.skip(1) =~= Seq::<RegWrite>::empty());
    }
}

/// A whole run of the procedure: the register is read; where the read fails
/// the procedure ends in that failure, and otherwise it asks for the one
/// write, if one is due, and ends in the outcome of that write.
pub proof fn lemma_polarity_run(mode: Polarity, read: Result<u16, IoError>, write: Result<
    u16,
    IoError,
>)
    ensures
        resolving(mode, Caller::Direct).requests(seq![read, write]) == seq![
            Request::Read { addr: MII_INTERNAL_CTRL_STATUS },
        ] + (match read {
            Ok(ctrl) => write_requests(polarity_sequence(ctrl, mode)),
            Err(_) => Seq::<Request>::empty(),
        }),
        resolving(mode, Caller::Direct).run(seq![read, write]) == (match read {
            Ok(ctrl) => if polarity_sequence(ctrl, mode).len() == 0 {
                Phase::Finished(Ok(()))
            } else {
                Phase::Finished(status(write))
            },
            Err(error) => Phase::Finished(Err(error)),
        }),
{
    let replies = seq![read, write];
    let first = resolving(mode, Caller::Direct);
    let rest = replies.skip(1);
    assert(rest =~= seq![write]);
    assert(replies[0] == read);
    match read {
        Ok(ctrl) => {
            let script = polarity_sequence(ctrl, mode);
            assert(first.advance(read) == sequenced(script, Caller::Direct));
            if script.len() == 0 {
                lemma_ended_is_final(sequenced(script, Caller::Direct), rest);
                assert(write_requests(script) =~= Seq::<Request>::empty());
            } else if write is Ok {
                lemma_writes_complete(script, Caller::Direct, rest);
            } else {
                lemma_writes_stop_at_failure(script, Caller::Direct, rest, 0);
                assert(script.take(1) =~= script);
            }
        },
        Err(error) => {
            lemma_ended_is_final(first.advance(read), rest);
        },
    }
}

} // verus!
