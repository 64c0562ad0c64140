//! The course of a test: once the virtual machine is ready, the calls to the payload are
//! made, and then the end of the virtual machine is awaited.
use vstd::prelude::*;

verus! {

/// The first number that the payload is to add.
pub const FIRST_NUMBER: i32 = 2;

/// The second number that the payload is to add.
pub const SECOND_NUMBER: i32 = 3;

/// Whom the payload is to greet.
pub const GREETED: &'static str = "Host";

/// How long to wait between two looks at a virtual machine that is to end, in seconds.
pub const END_POLL_SECONDS: u64 = 5;

/// The state of the virtual machine.
#[derive(Debug, PartialEq, Eq, Structural, Clone, Copy)]
pub enum GuestState {
    Ready,
    Dead,
    /// Any other state.
    Other,
}

/// What is to be done next.
#[derive(Debug, PartialEq, Eq, Structural, Clone, Copy)]
pub enum SessionStep {
    /// Look whether the virtual machine is ready.
    CheckReady,
    /// Have the numbers added.
    AddInteger,
    /// Have the host greeted.
    Hello,
    /// Tell the payload to quit.
    Quit,
    /// Look whether the virtual machine has ended.
    CheckDead,
    /// Wait, then look again whether the virtual machine has ended.
    Pause,
    /// Nothing; the test has passed.
    Passed,
    /// Nothing; a call has failed.
    Failed,
}

/// How the virtual machine answers to a step.
#[derive(Debug, PartialEq, Eq, Structural, Clone, Copy)]
pub enum Reply {
    /// Its state.
    State(GuestState),
    /// What was asked of it is done.
    Done,
    /// It has failed.
    Failure,
}

/// The step that follows a step, given the reply to it. Before the virtual machine is ready
/// its failures do not count.
pub open spec fn follows(step: SessionStep, reply: Reply) -> SessionStep {
    match step {
        SessionStep::CheckReady => if reply == Reply::State(GuestState::Ready) {
            SessionStep::AddInteger
        } else {
            SessionStep::CheckReady
        },
        SessionStep::AddInteger => if reply == Reply::Failure {
            SessionStep::Failed
        } else {
            SessionStep::Hello
        },
        SessionStep::Hello => if reply == Reply::Failure {
            SessionStep::Failed
        } else {
            SessionStep::Quit
        },
        SessionStep::Quit => if reply == Reply::Failure {
            SessionStep::Failed
        } else {
            SessionStep::CheckDead
        },
        SessionStep::CheckDead => if reply == Reply::Failure {
            SessionStep::Failed
        } else if reply == Reply::State(GuestState::Dead) {
            SessionStep::Passed
        } else {
            SessionStep::Pause
        },
        SessionStep::Pause => SessionStep::CheckDead,
        SessionStep::Passed => SessionStep::Passed,
        SessionStep::Failed => SessionStep::Failed,
    }
}

/// The step that follows a step, given the reply to it.
pub fn next(step: SessionStep, reply: Reply) -> (r: SessionStep)
    ensures
        r == follows(step, reply),
{
    let failed = reply == Reply::Failure;
    match step {
        SessionStep::CheckReady => if reply == Reply::State(GuestState::Ready) {
            SessionStep::AddInteger
        } else {
            SessionStep::CheckReady
        },
        SessionStep::AddInteger => if failed {
            SessionStep::Failed
        } else {
            SessionStep::Hello
        },
        SessionStep::Hello => if failed {
            SessionStep::Failed
        } else {
            SessionStep::Quit
        },
        SessionStep::Quit => if failed {
            SessionStep::Failed
        } else {
            SessionStep::CheckDead
        },
        SessionStep::CheckDead => if failed {
            SessionStep::Failed
        } else if reply == Reply::State(GuestState::Dead) {
            SessionStep::Passed
        } else {
            SessionStep::Pause
        },
        SessionStep::Pause => SessionStep::CheckDead,
        SessionStep::Passed => SessionStep::Passed,
        SessionStep::Failed => SessionStep::Failed,
    }
}

/// The step after a row of replies, from the start of the test.
pub open spec fn course(replies: Seq<Reply>) -> SessionStep
    decreases replies.len(),
{
    if replies.len() == 0 {
        SessionStep::CheckReady
    } else {
        follows(course(replies.drop_last()), replies.last())
    }
}

/// The test passes only if the virtual machine was seen ready and was seen dead later.
pub proof fn passed_was_ready_and_died(replies: Seq<Reply>)
    requires
        course(replies) == SessionStep::Passed,
    ensures
        exists|i: int, j: int|
            0 <= i < j < replies.len() && #[trigger] replies[i] == Reply::State(GuestState::Ready)
                && #[trigger] replies[j] == Reply::State(GuestState::Dead),
    decreases replies.len(),
{
    let init = replies.drop_last();
    let last = replies.len() - 1;
    if course(init) == SessionStep::Passed {
        passed_was_ready_and_died(init);
        let (i, j) = choose|i: int, j: int|
            0 <= i < j < init.len() && #[trigger] init[i] == Reply::State(GuestState::Ready)
                && #[trigger] init[j] == Reply::State(GuestState::Dead);
        assert(replies[i] == init[i] && replies[j] == init[j]);
    } else {
        assert(course(init) == SessionStep::CheckDead);
        calls_follow_ready(init);
        let i = choose|i: int|
            0 <= i < init.len() && #[trigger] init[i] == Reply::State(GuestState::Ready);
        assert(replies[i] == init[i]);
        assert(replies[last] == Reply::State(GuestState::Dead));
    }
}

/// Nothing is asked of the payload before the virtual machine was seen ready.
pub proof fn calls_follow_ready(replies: Seq<Reply>)
    requires
        course(replies) != SessionStep::CheckReady,
    ensures
        exists|i: int|
            0 <= i < replies.len() && #[trigger] replies[i] == Reply::State(GuestState::Ready),
    decreases replies.len(),
{
    let init = replies.drop_last();
    if course(init) == SessionStep::CheckReady {
        assert(replies[replies.len() - 1] == Reply::State(GuestState::Ready));
    } else {
        calls_follow_ready(init);
        let i = choose|i: int|
            0 <= i < init.len() && #[trigger] init[i] == Reply::State(GuestState::Ready);
        assert(replies[i] == init[i]);
    }
}

/// A test that has passed or failed stays so.
pub proof fn end_is_final(step: SessionStep, reply: Reply)
    requires
        step == SessionStep::Passed || step == SessionStep::Failed,
    ensures
        follows(step, reply) == step,
{
}

/// Only a virtual machine that is seen ready is called; until then it is looked at again,
/// whatever it answers.
pub proof fn called_only_once_ready(reply: Reply)
    ensures
        follows(SessionStep::CheckReady, reply) == SessionStep::AddInteger <==> reply
            == Reply::State(GuestState::Ready),
        follows(SessionStep::CheckReady, reply) == SessionStep::AddInteger || follows(
            SessionStep::CheckReady,
            reply,
        ) == SessionStep::CheckReady,
{
}

/// The calls are made one after the other, each only if the one before it did not fail, and
/// the end is awaited after the last one.
pub proof fn calls_follow_each_other(reply: Reply)
    ensures
        reply != Reply::Failure ==> follows(SessionStep::AddInteger, reply) == SessionStep::Hello,
        reply != Reply::Failure ==> follows(SessionStep::Hello, reply) == SessionStep::Quit,
        reply != Reply::Failure ==> follows(SessionStep::Quit, reply) == SessionStep::CheckDead,
        follows(SessionStep::AddInteger, Reply::Failure) == SessionStep::Failed,
        follows(SessionStep::Hello, Reply::Failure) == SessionStep::Failed,
        follows(SessionStep::Quit, Reply::Failure) == SessionStep::Failed,
{
}

/// The test passes exactly once the virtual machine is seen dead; one that is seen otherwise
/// is looked at again after a pause, and one that does not answer fails the test.
pub proof fn passes_once_dead(reply: Reply)
    ensures
        follows(SessionStep::CheckDead, reply) == SessionStep::Passed <==> reply == Reply::State(
            GuestState::Dead,
        ),
        follows(SessionStep::CheckDead, reply) == SessionStep::Failed <==> reply == Reply::Failure,
        reply != Reply::Failure && reply != Reply::State(GuestState::Dead) ==> follows(
            SessionStep::CheckDead,
            reply,
        ) == SessionStep::Pause,
        follows(SessionStep::Pause, reply) == SessionStep::CheckDead,
{
}

} // verus!
