//! Reaction to changes of the link.
//!
//! When the chip switches between 10 and 100 Mbps operation it resets its
//! analog bank. The bank is therefore set up again every time the link is
//! reported running at 100 Mbps.

use vstd::prelude::*;
use crate::analog::{analog_init_sequence, reinit_analog_for, reinitializing};
use crate::bus::{write_requests, IoError, LinkCondition, OperState, Request};
use crate::regs::SPEED_100;
use crate::step::{Caller, Phase, Step};
use crate::trace::{
    lemma_ended_is_final, lemma_suppression_keeps_requests, lemma_suppression_returns_no_failure,
    lemma_writes_complete, lemma_writes_stop_at_failure,
};

verus! {

/// Whether a link in this condition calls for the analog setup.
pub open spec fn reinit_due(link: LinkCondition) -> bool {
    link.state == OperState::Running && link.speed == SPEED_100
}

/// Decides whether a link in this condition calls for the analog setup.
pub fn needs_reinit(link: LinkCondition) -> (due: bool)
    ensures
        due == reinit_due(link),
{
    match link.state {
        OperState::Running => link.speed == SPEED_100,
        OperState::Other => false,
    }
}

/// The phase in which a notification of `link` begins.
pub open spec fn notifying(link: LinkCondition) -> Phase {
    if reinit_due(link) {
        reinitializing(Caller::LinkChange)
    } else {
        Phase::Finished(Ok(()))
    }
}

/// Starts the reaction to a change of the link. The analog setup runs where
/// the link calls for it, and nothing is done otherwise. The notification
/// cannot fail: a failure of the setup ends it in [`Step::Suppressed`].
pub fn link_change_notify(link: LinkCondition) -> (step: Step)
    ensures
        step@ == notifying(link),
{
    if needs_reinit(link) {
        reinit_analog_for(Caller::LinkChange)
    } else {
        Step::Finished(Ok(()))
    }
}

/// A notification sets the analog front end up if and only if the link is
/// running at 100 Mbps. It then asks for what the setup itself asks for,
/// each time it is given; in every other condition it asks for nothing and
/// ends at once.
pub proof fn lemma_notify_reinit_iff(link: LinkCondition, replies: Seq<Result<u16, IoError>>)
    ensures
        notifying(link).request() is Some <==> link.state == OperState::Running && link.speed
            == 100,
        reinit_due(link) ==> notifying(link).requests(replies) == reinitializing(
            Caller::Direct,
        ).requests(replies),
        !reinit_due(link) ==> notifying(link).requests(replies) == Seq::<Request>::empty()
            && notifying(link).run(replies) == Phase::Finished(Ok(())),
{
    if reinit_due(link) {
        lemma_suppression_keeps_requests(analog_init_sequence(), replies);
    } else {
        lemma_ended_is_final(notifying(link), replies);
    }
}

/// A notification never ends in a failure that is returned, whatever the
/// device does.
pub proof fn lemma_notify_never_fails(link: LinkCondition, replies: Seq<Result<u16, IoError>>)
    ensures
        !(notifying(link).run(replies) matches Phase::Finished(Err(_))),
{
    if reinit_due(link) {
        lemma_suppression_returns_no_failure(analog_init_sequence(), replies);
    } else {
        lemma_ended_is_final(notifying(link), replies);
    }
}

/// Where a notification sets the analog front end up and the write at
/// position `k` is the first to fail, the notification ends there and hands
/// the failure out for logging.
pub proof fn lemma_notify_suppresses_failure(
    link: LinkCondition,
    replies: Seq<Result<u16, IoError>>,
    k: int,
)
    requires
        reinit_due(link),
        0 <= k < 6,
        k < replies.len(),
        replies[k] is Err,
        forall|i: int| 0 <= i < k ==> replies[i] is Ok,
    ensures
        notifying(link).requests(replies) == write_requests(analog_init_sequence().take(k + 1)),
        notifying(link).requests(replies).len() == k + 1,
        notifying(link).run(replies) == Phase::Suppressed(replies[k]->Err_0),
{
    lemma_writes_stop_at_failure(analog_init_sequence(), Caller::LinkChange, replies, k);
}

/// Where a notification sets the analog front end up and all six writes
/// succeed, it asks for all six, in order, and ends in success. It does so
/// each time it is given: nothing is kept from one notification to the next.
pub proof fn lemma_notify_completes(link: LinkCondition, replies: Seq<Result<u16, IoError>>)
    requires
        reinit_due(link),
        replies.len() == 6,
        forall|i: int| 0 <= i < 6 ==> replies[i] is Ok,
    ensures
        notifying(link).requests(replies) == write_requests(analog_init_sequence()),
        notifying(link).requests(replies).len() == 6,
        notifying(link).run(replies) == Phase::Finished(Ok(())),
{
    lemma_writes_complete(analog_init_sequence(), Caller::LinkChange, replies);
}

} // verus!
