//! Operations as state machines, and what a whole run of one does.
use vstd::prelude::*;

verus! {

/// Where an operation stands: it waits for the reply to a call, or it is over.
#[derive(Debug, PartialEq, Eq)]
pub enum Step<S, C, T> {
    /// The call has to be made, and its reply handed to the operation.
    Call(C, S),
    /// The operation is over, with this result.
    Done(T),
}

/// What an operation makes of a reply before it takes it.
#[derive(Clone, Copy, Debug, PartialEq, Eq, Structural)]
pub enum ReplyCheck {
    /// The operation can go on.
    Accepted,
    /// The operation can go on, but the reply breaks an expectation. A build with
    /// debug assertions stops here.
    DebugFault,
    /// The operation cannot go on. Every build stops here.
    Fault,
}

/// An operation that alternates calls and decisions.
///
/// `Target` is what the operation changes while it runs.
pub trait Operation: Sized {
    type Target;

    type Call;

    type Reply;

    type Output;

    /// What the operation makes of `reply`, with `target` as it is.
    spec fn check_of(self, target: Self::Target, reply: Self::Reply) -> ReplyCheck;

    /// The target and the step after `reply`.
    spec fn next(self, target: Self::Target, reply: Self::Reply) -> (
        Self::Target,
        Step<Self, Self::Call, Self::Output>,
    );

    /// How many more replies the operation takes at most.
    spec fn remaining(self) -> nat;

    /// With every reply the operation comes nearer to its end.
    proof fn lemma_progress(self, target: Self::Target, reply: Self::Reply)
        ensures
            self.remaining() > 0,
            self.next(target, reply).1 matches Step::Call(_, state) ==> state.remaining()
                < self.remaining(),
    ;

    /// Tells whether the operation can take `reply`.
    fn check(&self, target: &Self::Target, reply: &Self::Reply) -> (check: ReplyCheck)
        ensures
            check == self.check_of(*target, *reply),
    ;

    /// Takes the reply to the last call.
    fn step(self, target: &mut Self::Target, reply: Self::Reply) -> (step: Step<
        Self,
        Self::Call,
        Self::Output,
    >)
        requires
            self.check_of(*old(target), reply) != ReplyCheck::Fault,
        ensures
            (*final(target), step) == self.next(*old(target), reply),
    ;
}

/// How a run ended.
pub enum End<S, T> {
    /// The replies ran out; the operation waits for one more.
    Waiting(S),
    /// The last reply was one that the operation cannot take.
    Faulted,
    /// The operation is over.
    Finished(T),
}

/// What a run did: the calls that it asked for, what it made of each reply, what became
/// of the target, and how the run ended.
pub struct Run<O: Operation> {
    pub calls: Seq<O::Call>,
    pub checks: Seq<ReplyCheck>,
    pub target: O::Target,
    pub end: End<O, O::Output>,
}

/// The run that goes on from `step`, taking its replies from `replies`, starting
/// with the one at `at`.
pub open spec fn run_from<O: Operation>(
    target: O::Target,
    step: Step<O, O::Call, O::Output>,
    replies: Seq<O::Reply>,
    at: nat,
) -> Run<O>
    decreases replies.len() - at,
{
    match step {
        Step::Done(output) => Run {
            calls: Seq::empty(),
            checks: Seq::empty(),
            target,
            end: End::Finished(output),
        },
        Step::Call(call, state) => if at >= replies.len() {
            Run { calls: seq![call], checks: Seq::empty(), target, end: End::Waiting(state) }
        } else if state.check_of(target, replies[at as int]) == ReplyCheck::Fault {
            Run {
                calls: seq![call],
                checks: seq![ReplyCheck::Fault],
                target,
                end: End::Faulted,
            }
        } else {
            let (after, next) = state.next(target, replies[at as int]);
            let rest = run_from(after, next, replies, at + 1);
            Run {
                calls: seq![call] + rest.calls,
                checks: seq![state.check_of(target, replies[at as int])] + rest.checks,
                target: rest.target,
                end: rest.end,
            }
        },
    }
}

/// The run of an operation that starts with `step` and gets `replies`.
pub open spec fn run<O: Operation>(
    target: O::Target,
    step: Step<O, O::Call, O::Output>,
    replies: Seq<O::Reply>,
) -> Run<O> {
    run_from(target, step, replies, 0)
}

} // verus!
