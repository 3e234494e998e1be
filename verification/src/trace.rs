//! What a procedure asks for in the course of a run.
//!
//! A run is a phase together with the replies of the host, in the order in
//! which they are given. A reply is the outcome of the operation that was
//! asked for: the value read, or, for an operation that yields none, a
//! success whose value is not looked at. The laws below hold for every
//! sequence of writes, and so for each procedure of the driver.

use vstd::prelude::*;
use crate::bus::{status, to_status, write_request, write_requests, IoError, RegWrite, Request};
use crate::step::{sequenced, Caller, Phase, Step};

verus! {

impl Phase {
    /// Whether the procedure has ended.
    pub open spec fn ended(self) -> bool {
        self is Finished || self is Suppressed
    }

    /// The phase after the host has answered the pending request with
    /// `reply`. A procedure that has ended stays as it is.
    pub open spec fn advance(self, reply: Result<u16, IoError>) -> Phase {
        match self {
            Phase::Read { then, .. } => then.resumed(reply),
            Phase::Write { then, .. } => then.resumed(status(reply)),
            Phase::Call { then, .. } => then.resumed(status(reply)),
            Phase::Finished(_) => self,
            Phase::Suppressed(_) => self,
        }
    }

    /// The phase after the host has given `replies`, one for each request in
    /// turn.
    pub open spec fn run(self, replies: Seq<Result<u16, IoError>>) -> Phase
        decreases replies.len(),
    {
        if replies.len() == 0 {
            self
        } else {
            self.advance(replies[0]).run(replies.skip(1))
        }
    }

    /// The requests that are answered in the course of `replies`, in order:
    /// those that the procedure makes until it ends or the replies run out.
    pub open spec fn requests(self, replies: Seq<Result<u16, IoError>>) -> Seq<Request>
        decreases replies.len(),
    {
        if replies.len() == 0 || self.ended() {
            Seq::empty()
        } else {
            seq![self.request().unwrap()] + self.advance(replies[0]).requests(replies.skip(1))
        }
    }
}

impl Step {
    /// Takes the host's reply to the pending request, whatever kind of
    /// request it is. A procedure that has ended stays as it is.
    pub fn advance(self, reply: Result<u16, IoError>) -> (step: Step)
        ensures
            step@ == self@.advance(reply),
    {
        match self {
            Step::Read { then, .. } => then.proceed(reply),
            Step::Write { then, .. } => then.proceed(to_status(reply)),
            Step::Call { then, .. } => then.proceed(to_status(reply)),
            Step::Finished(result) => Step::Finished(result),
            Step::Suppressed(error) => Step::Suppressed(error),
        }
    }
}

/// Runs a procedure against replies that are known beforehand, and returns
/// the step it has reached with the requests it made on the way. This is
/// what a host does with a live device, one reply at a time.
pub fn replay(step: Step, replies: &Vec<Result<u16, IoError>>) -> (end: (Step, Vec<Request>))
    ensures
        end.0@ == step@.run(replies@),
        end.1@ == step@.requests(replies@),
{
    let ghost start = step@;
    let mut current = step;
    let mut asked: Vec<Request> = Vec::new();
    let mut i: usize = 0;
    while i < replies.len()
        invariant
            i <= replies.len(),
            current@ == start.run(replies@.take(i as int)),
            asked@ == start.requests(replies@.take(i as int)),
        decreases replies.len() - i,
    {
        let reply = replies[i];
        let ghost before = current@;
        if let Some(request) = current.request() {
            asked.push(request);
        }
        current = current.advance(reply);
        proof {
            let done = replies@.take(i as int);
            let one = seq![reply];
            assert(replies@.take(i + 1) =~= done + one);
            lemma_single_reply(before, reply);
            lemma_run_in_two_parts(start, done, one);
        }
        i += 1;
    }
    proof {
        assert(replies@.take(i as int) =~= replies@);
    }
    (current, asked)
}

/// A procedure that has ended asks for nothing more and stays ended,
/// whatever the host goes on to reply.
pub proof fn lemma_ended_is_final(phase: Phase, replies: Seq<Result<u16, IoError>>)
    requires
        phase.ended(),
    ensures
        phase.run(replies) == phase,
        phase.requests(replies) == Seq::<Request>::empty(),
    decreases replies.len(),
{
    if replies.len() > 0 {
        lemma_ended_is_final(phase, replies.skip(1));
    }
}

/// A run of one reply is one step: the pending request, if there is one, is
/// answered, and the phase advances.
pub proof fn lemma_single_reply(phase: Phase, reply: Result<u16, IoError>)
    ensures
        phase.run(seq![reply]) == phase.advance(reply),
        phase.requests(seq![reply]) == if phase.ended() {
            Seq::<Request>::empty()
        } else {
            seq![phase.request().unwrap()]
        },
{
    let one = seq![reply];
    let none = one.skip(1);
    assert(one[0] == reply);
    assert(none.len() == 0);
    assert(phase.advance(reply).run(none) == phase.advance(reply));
    assert(phase.advance(reply).requests(none) =~= Seq::<Request>::empty());
    assert(phase.requests(one) =~= if phase.ended() {
        Seq::<Request>::empty()
    } else {
        seq![phase.request().unwrap()]
    });
}

/// A run can be taken in two parts: the second part starts from the phase
/// that the first part has reached.
pub proof fn lemma_run_in_two_parts(
    phase: Phase,
    first: Seq<Result<u16, IoError>>,
    second: Seq<Result<u16, IoError>>,
)
    ensures
        phase.run(first + second) == phase.run(first).run(second),
        phase.requests(first + second) == phase.requests(first) + phase.run(first).requests(
            second,
        ),
    decreases first.len(),
{
    if first.len() == 0 {
        assert(first + second =~= second);
        assert(phase.requests(first) + phase.requests(second) =~= phase.requests(second));
    } else {
        assert((first + second).skip(1) =~= first.skip(1) + second);
        assert((first + second)[0] == first[0]);
        let next = phase.advance(first[0]);
        lemma_run_in_two_parts(next, first.skip(1), second);
        if phase.ended() {
            lemma_ended_is_final(phase, first);
            lemma_ended_is_final(phase, second);
            assert(phase.requests(first) + phase.run(first).requests(second)
                =~= Seq::<Request>::empty());
        } else {
            assert(phase.requests(first + second) =~= phase.requests(first) + phase.run(
                first,
            ).requests(second));
        }
    }
}

/// At every point of every run, what a sequence of writes has asked for is
/// the beginning of its script, in order, and each request but the last one
/// made has succeeded: no write is asked for unless all before it were made.
/// Only the framework's own setup, where the caller has one, follows the
/// last write.
pub proof fn lemma_writes_follow_script(
    script: Seq<RegWrite>,
    caller: Caller,
    replies: Seq<Result<u16, IoError>>,
)
    ensures
        sequenced(script, caller).requests(replies).len() <= replies.len(),
        sequenced(script, caller).requests(replies).len() <= script.len() + 1,
        caller != Caller::ConfigAneg ==> sequenced(script, caller).requests(replies).len()
            <= script.len(),
        forall|i: int|
            0 <= i < sequenced(script, caller).requests(replies).len() && i < script.len()
                ==> sequenced(script, caller).requests(replies)[i] == write_request(script[i]),
        forall|i: int|
            0 <= i < sequenced(script, caller).requests(replies).len() - 1
                ==> (#[trigger] replies[i]) is Ok,
    decreases script.len(),
{
    let first = sequenced(script, caller);
    if replies.len() > 0 {
        let next = first.advance(replies[0]);
        let rest = replies.skip(1);
        if script.len() == 0 || replies[0] is Err {
            lemma_ended_is_final(next, rest);
        } else {
            lemma_writes_follow_script(script.skip(1), caller, rest);
            let later = sequenced(script.skip(1), caller).requests(rest);
            assert(first.requests(replies) =~= seq![write_request(script[0])] + later);
            assert forall|i: int|
                0 <= i < first.requests(replies).len() && i < script.len() implies first.requests(
                replies,
            )[i] == write_request(script[i]) by {
                if i > 0 {
                    assert(later[i - 1] == write_request(script.skip(1)[i - 1]));
                }
            }
            assert forall|i: int| 0 <= i < first.requests(replies).len() - 1 implies (
            #[trigger] replies[i]) is Ok by {
                if i > 0 {
                    assert(rest[i - 1] is Ok);
                }
            }
        }
    }
}

/// Where every write succeeds, the writes of a sequence are asked for in
/// full and in order, and the sequence ends in success.
pub proof fn lemma_writes_complete(
    script: Seq<RegWrite>,
    caller: Caller,
    replies: Seq<Result<u16, IoError>>,
)
    requires
        replies.len() == script.len(),
        forall|i: int| 0 <= i < replies.len() ==> replies[i] is Ok,
    ensures
        sequenced(script, caller).requests(replies) == write_requests(script),
        sequenced(script, caller).run(replies) == caller.concluded(Ok(())),
    decreases script.len(),
{
    if script.len() > 0 {
        let first = sequenced(script, caller);
        assert(replies[0] is Ok);
        assert(first.advance(replies[0]) == sequenced(script.skip(1), caller));
        lemma_writes_complete(script.skip(1), caller, replies.skip(1));
        assert(first.requests(replies) =~= write_requests(script));
    } else {
        assert(write_requests(script) =~= Seq::<Request>::empty());
    }
}

/// Where the write at position `k` is the first to fail, the writes up to
/// and including that one are asked for, in order, and no other: the
/// sequence ends in that failure, whatever the host would have replied to
/// the writes after it.
pub proof fn lemma_writes_stop_at_failure(
    script: Seq<RegWrite>,
    caller: Caller,
    replies: Seq<Result<u16, IoError>>,
    k: int,
)
    requires
        0 <= k < script.len(),
        k < replies.len(),
        replies[k] is Err,
        forall|i: int| 0 <= i < k ==> replies[i] is Ok,
    ensures
        sequenced(script, caller).requests(replies) == write_requests(script.take(k + 1)),
        sequenced(script, caller).run(replies) == caller.concluded(Err(replies[k]->Err_0)),
    decreases k,
{
    let first = sequenced(script, caller);
    if k == 0 {
        let end = caller.concluded(Err(replies[0]->Err_0));
        assert(first.advance(replies[0]) == end);
        lemma_ended_is_final(end, replies.skip(1));
        assert(first.requests(replies) =~= write_requests(script.take(1)));
    } else {
        assert(replies[0] is Ok);
        assert(first.advance(replies[0]) == sequenced(script.skip(1), caller));
        lemma_writes_stop_at_failure(script.skip(1), caller, replies.skip(1), k - 1);
        assert(script.skip(1).take(k) =~= script.take(k + 1).skip(1));
        assert(first.requests(replies) =~= write_requests(script.take(k + 1)));
    }
}

/// A sequence of writes asks for the same operations whether its failure is
/// returned or suppressed.
pub proof fn lemma_suppression_keeps_requests(
    script: Seq<RegWrite>,
    replies: Seq<Result<u16, IoError>>,
)
    ensures
        sequenced(script, Caller::LinkChange).requests(replies) == sequenced(
            script,
            Caller::Direct,
        ).requests(replies),
    decreases script.len(),
{
    let suppressing = sequenced(script, Caller::LinkChange);
    let returning = sequenced(script, Caller::Direct);
    if script.len() > 0 && replies.len() > 0 {
        if replies[0] is Ok {
            lemma_suppression_keeps_requests(script.skip(1), replies.skip(1));
        } else {
            lemma_ended_is_final(suppressing.advance(replies[0]), replies.skip(1));
            lemma_ended_is_final(returning.advance(replies[0]), replies.skip(1));
        }
    }
}

/// A sequence of writes whose failure is suppressed never ends in a failure
/// that is returned.
pub proof fn lemma_suppression_returns_no_failure(
    script: Seq<RegWrite>,
    replies: Seq<Result<u16, IoError>>,
)
    ensures
        !(sequenced(script, Caller::LinkChange).run(replies) matches Phase::Finished(Err(_))),
    decreases replies.len(),
{
    let first = sequenced(script, Caller::LinkChange);
    if replies.len() > 0 {
        if script.len() == 0 || replies[0] is Err {
            lemma_ended_is_final(first.advance(replies[0]), replies.skip(1));
        } else {
            lemma_suppression_returns_no_failure(script.skip(1), replies.skip(1));
        }
    }
}

} // verus!
