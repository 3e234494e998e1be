//! The remaining entry points that the PHY framework calls.

use vstd::prelude::*;
use crate::bus::{status, write_requests, GenericProc, IoError, Polarity, Request};
use crate::config::{configure, configuring};
use crate::polarity::{polarity_sequence, resolve_polarity_for, resolving};
use crate::regs::MII_INTERNAL_CTRL_STATUS;
use crate::step::{sequenced, AfterCall, Caller, Phase, Step};
use crate::trace::{
    lemma_ended_is_final, lemma_run_in_two_parts, lemma_writes_complete,
    lemma_writes_stop_at_failure,
};

verus! {

/// The phase in which a soft reset begins.
pub open spec fn resetting() -> Phase {
    Phase::Call { procedure: GenericProc::SoftReset, then: AfterCall::Return }
}

/// Starts a soft reset: the framework's own procedure does the work, and its
/// outcome is the result.
pub fn soft_reset() -> (step: Step)
    ensures
        step@ == resetting(),
{
    Step::Call { procedure: GenericProc::SoftReset, then: AfterCall::Return }
}

/// Starts the initial configuration of a device the driver has attached to.
pub fn config_init() -> (step: Step)
    ensures
        step@ == configuring(),
{
    configure()
}

/// Starts autonegotiation setup for the requested polarity `mode`: the
/// polarity is forced first, so that it is in effect when the framework's own
/// setup runs.
pub fn config_aneg(mode: Polarity) -> (step: Step)
    ensures
        step@ == resolving(mode, Caller::ConfigAneg),
{
    resolve_polarity_for(mode, Caller::ConfigAneg)
}

/// A soft reset asks for the framework's procedure and for nothing else, and
/// ends in the outcome of that call, unchanged.
pub proof fn lemma_soft_reset_delegates(outcome: Result<u16, IoError>)
    ensures
        resetting().request() == Some(Request::Call { procedure: GenericProc::SoftReset }),
        resetting().advance(outcome) == Phase::Finished(status(outcome)),
{
}

/// Where the register is read as `ctrl` and the write that forces the
/// polarity, if one is due, succeeds, autonegotiation setup hands over to
/// the framework's own setup after the polarity is in effect, and ends in
/// the outcome of that call. `replies` holds the outcomes of the read, of
/// the write where one is due, and of the call.
pub proof fn lemma_config_aneg_negotiates_last(
    mode: Polarity,
    ctrl: u16,
    replies: Seq<Result<u16, IoError>>,
)
    requires
        replies.len() == polarity_sequence(ctrl, mode).len() + 2,
        replies[0] == Ok::<u16, IoError>(ctrl),
        forall|i: int| 0 <= i < replies.len() - 1 ==> replies[i] is Ok,
    ensures
        resolving(mode, Caller::ConfigAneg).requests(replies) == seq![
            Request::Read { addr: MII_INTERNAL_CTRL_STATUS },
        ] + write_requests(polarity_sequence(ctrl, mode)) + seq![
            Request::Call { procedure: GenericProc::ConfigAneg },
        ],
        resolving(mode, Caller::ConfigAneg).run(replies) == Phase::Finished(
            status(replies.last()),
        ),
{
    let script = polarity_sequence(ctrl, mode);
    let writing = sequenced(script, Caller::ConfigAneg);
    let rest = replies.skip(1);
    let writes = rest.take(script.len() as int);
    let last = rest.skip(script.len() as int);
    assert(resolving(mode, Caller::ConfigAneg).advance(replies[0]) == writing);
    assert(rest =~= writes + last);
    assert(last =~= seq![replies.last()]);
    lemma_writes_complete(script, Caller::ConfigAneg, writes);
    lemma_run_in_two_parts(writing, writes, last);
    let calling = Caller::ConfigAneg.concluded(Ok(()));
    assert(last[0] == replies.last());
    lemma_ended_is_final(calling.advance(last[0]), last.skip(1));
    assert(calling.requests(last) =~= seq![
        Request::Call { procedure: GenericProc::ConfigAneg },
    ]);
    assert(calling.run(last) == Phase::Finished(status(replies.last())));
}

/// Where the read fails, or the write that forces the polarity fails,
/// autonegotiation setup ends in that failure and the framework's own setup
/// is not asked for. `k` is the position of the failed operation: 0 for the
/// read, 1 for the write.
pub proof fn lemma_config_aneg_stops_at_failure(
    mode: Polarity,
    replies: Seq<Result<u16, IoError>>,
    k: int,
)
    requires
        0 <= k < replies.len(),
        replies[k] is Err,
        forall|i: int| 0 <= i < k ==> replies[i] is Ok,
        k > 0 ==> k <= polarity_sequence(replies[0]->Ok_0, mode).len(),
    ensures
        resolving(mode, Caller::ConfigAneg).requests(replies).len() == k + 1,
        forall|j: int|
            0 <= j <= k ==> !(#[trigger] resolving(mode, Caller::ConfigAneg).requests(replies)[j]
                is Call),
        resolving(mode, Caller::ConfigAneg).run(replies) == Phase::Finished(
            Err(replies[k]->Err_0),
        ),
{
    let first = resolving(mode, Caller::ConfigAneg);
    let rest = replies.skip(1);
    if k == 0 {
        lemma_ended_is_final(first.advance(replies[0]), rest);
    } else {
        let script = polarity_sequence(replies[0]->Ok_0, mode);
        assert(first.advance(replies[0]) == sequenced(script, Caller::ConfigAneg));
        assert forall|i: int| 0 <= i < k - 1 implies rest[i] is Ok by {
            assert(rest[i] == replies[i + 1]);
        }
        lemma_writes_stop_at_failure(script, Caller::ConfigAneg, rest, k - 1);
    }
}

} // verus!
