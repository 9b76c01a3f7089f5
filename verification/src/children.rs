//! Stopping a child process: politely at first, then by force.

use crate::status::{log, padded, report, warn, BRIGHT, DIM, RESET, WARN};
use vstd::prelude::*;

verus! {

/// How long a child that was asked to end may take to do so, in nanoseconds.
pub const GRACE_NANOS: u128 = 2_000_000_000;

/// How long to pause between two looks at a child, in milliseconds.
pub const REAP_PAUSE_MS: u64 = 50;

/// What a look at a child shows.
#[derive(Clone, Copy, Debug, PartialEq, Eq, Structural)]
pub enum ChildStatus {
    /// It has exited.
    Exited,
    /// It is still running.
    Running,
    /// The look failed.
    Unknown,
}

/// What came of what was asked.
#[derive(Clone, Copy, Debug, PartialEq, Eq, Structural)]
pub enum ReapAnswer {
    /// The first look at the child.
    Found(ChildStatus),
    /// The child was asked to end.
    Asked,
    /// A later look, and the nanoseconds since the first.
    Polled { status: ChildStatus, elapsed: u128 },
    /// The pause is over.
    Paused,
    /// The child was killed and waited for.
    Killed,
}

/// What the stopping needs done next.
#[derive(Clone, Copy, Debug, PartialEq, Eq, Structural)]
pub enum ReapAsk {
    /// Ask the child to end, with SIGTERM.
    Terminate,
    /// Look at the child again.
    Poll,
    /// Pause for so many milliseconds.
    Pause(u64),
    /// Kill the child and wait for it.
    Kill,
    /// Nothing: the stopping is over.
    Over(ReapEnd),
}

/// How the stopping of a child ended.
#[derive(Clone, Copy, Debug, PartialEq, Eq, Structural)]
pub enum ReapEnd {
    /// It had exited before.
    AlreadyExited,
    /// It ended in time.
    ExitedCleanly,
    /// It was killed when its time was up.
    ForceKilled,
    /// A look at it failed, and it was left alone.
    Lost,
}

/// What the stopping needs done after each answer.
pub open spec fn reap_next(answer: ReapAnswer) -> ReapAsk {
    match answer {
        ReapAnswer::Found(ChildStatus::Exited) => ReapAsk::Over(ReapEnd::AlreadyExited),
        ReapAnswer::Found(ChildStatus::Unknown) => ReapAsk::Over(ReapEnd::Lost),
        ReapAnswer::Found(ChildStatus::Running) => ReapAsk::Terminate,
        ReapAnswer::Asked => ReapAsk::Poll,
        ReapAnswer::Polled { status: ChildStatus::Exited, .. } => ReapAsk::Over(
            ReapEnd::ExitedCleanly,
        ),
        ReapAnswer::Polled { status: ChildStatus::Unknown, .. } => ReapAsk::Over(ReapEnd::Lost),
        ReapAnswer::Polled { status: ChildStatus::Running, elapsed } => if elapsed > GRACE_NANOS {
            ReapAsk::Kill
        } else {
            ReapAsk::Pause(REAP_PAUSE_MS)
        },
        ReapAnswer::Paused => ReapAsk::Poll,
        ReapAnswer::Killed => ReapAsk::Over(ReapEnd::ForceKilled),
    }
}

/// Tells what the stopping of a child needs done next. It begins with the answer `Found`.
pub fn kill_child(answer: ReapAnswer) -> (r: ReapAsk)
    ensures
        r == reap_next(answer),
{
    match answer {
        ReapAnswer::Found(status) => match status {
            ChildStatus::Exited => ReapAsk::Over(ReapEnd::AlreadyExited),
            ChildStatus::Unknown => ReapAsk::Over(ReapEnd::Lost),
            ChildStatus::Running => ReapAsk::Terminate,
        },
        ReapAnswer::Asked => ReapAsk::Poll,
        ReapAnswer::Polled { status, elapsed } => match status {
            ChildStatus::Exited => ReapAsk::Over(ReapEnd::ExitedCleanly),
            ChildStatus::Unknown => ReapAsk::Over(ReapEnd::Lost),
            ChildStatus::Running => if elapsed > GRACE_NANOS {
                ReapAsk::Kill
            } else {
                ReapAsk::Pause(REAP_PAUSE_MS)
            },
        },
        ReapAnswer::Paused => ReapAsk::Poll,
        ReapAnswer::Killed => ReapAsk::Over(ReapEnd::ForceKilled),
    }
}

/// What is reported of the stopping of a child: nothing where a look at it failed.
pub open spec fn end_report(end: ReapEnd, name: Seq<char>) -> Option<Seq<char>> {
    match end {
        ReapEnd::AlreadyExited => Some(report(BRIGHT@, ">"@, DIM@, name, "already exited"@)),
        ReapEnd::ExitedCleanly => Some(report(BRIGHT@, ">"@, DIM@, name, "exited cleanly"@)),
        ReapEnd::ForceKilled => Some(
            report(WARN@, "!"@, WARN@, name, "force-killed after timeout"@),
        ),
        ReapEnd::Lost => None,
    }
}

impl ReapEnd {
    /// The line that reports how the stopping of the child of this name ended, if there is
    /// anything to report.
    pub fn report_line(self, name: &str) -> (r: Option<String>)
        ensures
            r.deep_view() == end_report(self, name@),
    {
        match self {
            ReapEnd::AlreadyExited => Some(log(name, "already exited")),
            ReapEnd::ExitedCleanly => Some(log(name, "exited cleanly")),
            ReapEnd::ForceKilled => Some(warn(name, "force-killed after timeout")),
            ReapEnd::Lost => None,
        }
    }
}

/// Every end is reported but that of a child which was lost, and the report ends with what became
/// of the child, right behind the column with the child's name. A child that had to be killed is
/// reported with the mark of a warning, and the others are not.
pub proof fn law_end_reports(end: ReapEnd, name: Seq<char>)
    ensures
        end_report(end, name) is None <==> end is Lost,
        end_report(end, name) matches Some(line) ==> {
            let column = padded(name, 14) + RESET@ + " "@;
            let ordinary = "  "@ + BRIGHT@ + ">"@ + RESET@ + " "@ + DIM@ + column;
            let warning = "  "@ + WARN@ + "!"@ + RESET@ + " "@ + WARN@ + column;
            &&& end is AlreadyExited ==> line == ordinary + "already exited"@
            &&& end is ExitedCleanly ==> line == ordinary + "exited cleanly"@
            &&& end is ForceKilled ==> line == warning + "force-killed after timeout"@
        },
{
    if let Some(line) = end_report(end, name) {
        let column = padded(name, 14) + RESET@ + " "@;
        let ordinary = "  "@ + BRIGHT@ + ">"@ + RESET@ + " "@ + DIM@ + column;
        let warning = "  "@ + WARN@ + "!"@ + RESET@ + " "@ + WARN@ + column;
        match end {
            ReapEnd::AlreadyExited => {
                assert(line == ordinary + "already exited"@);
            },
            ReapEnd::ExitedCleanly => {
                assert(line == ordinary + "exited cleanly"@);
            },
            _ => {
                assert(line == warning + "force-killed after timeout"@);
            },
        }
    }
}

/// Whether an answer is one to what was asked.
pub open spec fn is_reap_answer(ask: ReapAsk, answer: ReapAnswer) -> bool {
    match answer {
        ReapAnswer::Found(_) => false,
        ReapAnswer::Asked => ask is Terminate,
        ReapAnswer::Polled { .. } => ask is Poll,
        ReapAnswer::Paused => ask is Pause,
        ReapAnswer::Killed => ask is Kill,
    }
}

/// Whether the first of the answers is the first look at a child, and each of the others is one
/// to what was asked before it.
pub open spec fn is_reaping(answers: Seq<ReapAnswer>) -> bool {
    &&& answers.len() > 0
    &&& answers[0] is Found
    &&& forall|i: int, j: int|
        0 <= i && j == i + 1 && j < answers.len() ==> is_reap_answer(
            reap_next(#[trigger] answers[i]),
            #[trigger] answers[j],
        )
}

/// A child is killed exactly when a look shows it running after its grace is over.
pub proof fn law_kills_the_overdue(answer: ReapAnswer)
    ensures
        reap_next(answer) is Kill <==> (answer matches ReapAnswer::Polled { status, elapsed }
            && status == ChildStatus::Running && elapsed > GRACE_NANOS),
{
}

/// What a look at the child has shown, if an answer is a look, the first or a later one.
pub open spec fn look(answer: ReapAnswer) -> Option<ChildStatus> {
    match answer {
        ReapAnswer::Found(status) => Some(status),
        ReapAnswer::Polled { status, .. } => Some(status),
        _ => None,
    }
}

/// The stopping is over only when the child is settled: a look has shown that it has exited, or
/// has failed, or the child was killed. And it is over then, with an end that says which.
pub proof fn law_over_when_settled(answer: ReapAnswer)
    ensures
        reap_next(answer) is Over <==> {
            ||| look(answer) == Some(ChildStatus::Exited)
            ||| look(answer) == Some(ChildStatus::Unknown)
            ||| answer is Killed
        },
        reap_next(answer) == ReapAsk::Over(ReapEnd::AlreadyExited) <==> answer is Found && look(
            answer,
        ) == Some(ChildStatus::Exited),
        reap_next(answer) == ReapAsk::Over(ReapEnd::ExitedCleanly) <==> answer is Polled && look(
            answer,
        ) == Some(ChildStatus::Exited),
        reap_next(answer) == ReapAsk::Over(ReapEnd::Lost) <==> look(answer) == Some(
            ChildStatus::Unknown,
        ),
        reap_next(answer) == ReapAsk::Over(ReapEnd::ForceKilled) <==> answer is Killed,
{
}

/// A child that runs is never given up: it is asked to end when it is first seen running, is
/// looked at again after a pause of 50 milliseconds while its grace of two seconds lasts, and is
/// killed after that.
pub proof fn law_running_child_is_pursued(answer: ReapAnswer)
    requires
        look(answer) == Some(ChildStatus::Running),
    ensures
        reap_next(answer) is Terminate <==> answer is Found,
        reap_next(answer) == ReapAsk::Pause(50) <==> (answer matches ReapAnswer::Polled {
            elapsed,
            ..
        } && elapsed <= 2_000_000_000),
        reap_next(answer) is Kill <==> (answer matches ReapAnswer::Polled { elapsed, .. }
            && elapsed > 2_000_000_000),
        reap_next(ReapAnswer::Asked) is Poll,
        reap_next(ReapAnswer::Paused) is Poll,
{
}

/// Only the first look has the child asked to end, and only a look that shows it running has
/// the stopping pause; the child is looked at again exactly when it was asked to end, or a pause
/// is over.
pub proof fn law_reap_asks(answer: ReapAnswer)
    ensures
        reap_next(answer) is Terminate <==> answer == ReapAnswer::Found(ChildStatus::Running),
        reap_next(answer) is Pause ==> answer is Polled && look(answer) == Some(
            ChildStatus::Running,
        ),
        reap_next(answer) is Poll <==> answer is Asked || answer is Paused,
{
}

/// A child that goes on running through its grace is looked at again and again: from any look
/// within the grace, the stopping pauses and looks once more, whatever it has shown before.
pub proof fn law_grace_is_used(answers: Seq<ReapAnswer>, later: ChildStatus, by_then: u128)
    requires
        is_reaping(answers),
        answers.last() matches ReapAnswer::Polled { status, elapsed } && status
            == ChildStatus::Running && elapsed <= 2_000_000_000,
    ensures
        is_reaping(answers + seq![ReapAnswer::Paused, ReapAnswer::Polled {
            status: later,
            elapsed: by_then,
        }]),
{
    let polled = ReapAnswer::Polled { status: later, elapsed: by_then };
    let more = answers + seq![ReapAnswer::Paused, polled];
    assert forall|i: int, j: int| 0 <= i && j == i + 1 && j < more.len() implies is_reap_answer(
        reap_next(#[trigger] more[i]),
        #[trigger] more[j],
    ) by {
        if j < answers.len() {
            assert(more[i] == answers[i] && more[j] == answers[j]);
        } else if j == answers.len() {
            assert(more[i] == answers.last());
        }
    }
}

/// However the stopping of a child goes, every look at the child but the last has shown it
/// running, and within its grace if it was not the first.
pub proof fn law_looks_until_settled(answers: Seq<ReapAnswer>, at: int)
    requires
        is_reaping(answers),
        0 <= at < answers.len() - 1,
    ensures
        answers[at] matches ReapAnswer::Found(status) ==> status == ChildStatus::Running,
        answers[at] matches ReapAnswer::Polled { status, elapsed } ==> status
            == ChildStatus::Running && (elapsed <= GRACE_NANOS || answers[at + 1] is Killed),
{
    let next = answers[at + 1];
    assert(is_reap_answer(reap_next(answers[at]), next));
}

/// A child is killed only after it was asked to end: that is the first thing asked for, and it
/// is asked for once.
pub proof fn law_asked_before_killed(answers: Seq<ReapAnswer>, at: int)
    requires
        is_reaping(answers),
        0 <= at < answers.len(),
        reap_next(answers[at]) is Kill,
    ensures
        at >= 2,
        reap_next(answers[0]) is Terminate,
        answers[1] is Asked,
        forall|i: int|
            0 <= i < answers.len() ==> (reap_next(#[trigger] answers[i]) is Terminate <==> i == 0),
{
    assert(at > 0);
    assert(is_reap_answer(reap_next(answers[0]), answers[1]));
    assert forall|i: int| 0 < i < answers.len() implies !(reap_next(
        #[trigger] answers[i],
    ) is Terminate) by {
        assert(is_reap_answer(reap_next(answers[i - 1]), answers[i]));
    }
}

/// A child that a later look shows to have ended was asked to end, and was not killed.
pub proof fn law_ends_on_request(answers: Seq<ReapAnswer>)
    requires
        is_reaping(answers),
        answers.last() matches ReapAnswer::Polled { status, .. } && status == ChildStatus::Exited,
    ensures
        answers[0] == ReapAnswer::Found(ChildStatus::Running),
        reap_next(answers[0]) is Terminate,
        reap_next(answers.last()) == ReapAsk::Over(ReapEnd::ExitedCleanly),
        forall|i: int| 0 <= i < answers.len() ==> !(reap_next(#[trigger] answers[i]) is Kill),
{
    assert(is_reap_answer(reap_next(answers[0]), answers[1]));
    assert forall|i: int| 0 <= i < answers.len() implies !(reap_next(
        #[trigger] answers[i],
    ) is Kill) by {
        if i < answers.len() - 1 {
            assert(is_reap_answer(reap_next(answers[i]), answers[i + 1]));
            if reap_next(answers[i]) is Kill {
                assert(answers[i + 1] is Killed);
                if i + 1 < answers.len() - 1 {
                    assert(is_reap_answer(reap_next(answers[i + 1]), answers[i + 2]));
                }
            }
        }
    }
}

/// A child counts as killed only if the last look has shown it running after its grace was
/// over.
pub proof fn law_killed_was_overdue(answers: Seq<ReapAnswer>)
    requires
        is_reaping(answers),
        reap_next(answers.last()) == ReapAsk::Over(ReapEnd::ForceKilled),
    ensures
        answers.len() >= 2,
        answers[answers.len() - 2] matches ReapAnswer::Polled { status, elapsed } && status
            == ChildStatus::Running && elapsed > GRACE_NANOS,
{
    let last = answers.len() - 1;
    assert(answers[last] is Killed);
    assert(is_reap_answer(reap_next(answers[last - 1]), answers[last]));
}

/// Once the grace is over, the stopping comes to its end: with the next look, or with the kill
/// that follows it.
pub proof fn law_reaping_ends(status: ChildStatus, elapsed: u128)
    requires
        elapsed > GRACE_NANOS,
    ensures
        reap_next(ReapAnswer::Polled { status, elapsed }) is Over || reap_next(
            ReapAnswer::Polled { status, elapsed },
        ) is Kill,
        reap_next(ReapAnswer::Killed) is Over,
{
}

} // verus!
