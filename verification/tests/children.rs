use chaplin_click::children::{
    kill_child, ChildStatus, ReapAnswer, ReapAsk, ReapEnd, GRACE_NANOS,
};
use chaplin_click::status::log;

fn polled(status: ChildStatus, elapsed: u128) -> ReapAsk {
    kill_child(ReapAnswer::Polled { status, elapsed })
}

#[test]
fn the_first_look_decides_whether_there_is_anything_to_stop() {
    assert_eq!(
        kill_child(ReapAnswer::Found(ChildStatus::Exited)),
        ReapAsk::Over(ReapEnd::AlreadyExited)
    );
    assert_eq!(
        kill_child(ReapAnswer::Found(ChildStatus::Unknown)),
        ReapAsk::Over(ReapEnd::Lost)
    );
    assert_eq!(kill_child(ReapAnswer::Found(ChildStatus::Running)), ReapAsk::Terminate);
}

#[test]
fn a_child_has_its_grace() {
    assert_eq!(GRACE_NANOS, 2_000_000_000);
    assert_eq!(polled(ChildStatus::Running, 0), ReapAsk::Pause(50));
    assert_eq!(polled(ChildStatus::Running, GRACE_NANOS), ReapAsk::Pause(50));
    assert_eq!(polled(ChildStatus::Running, GRACE_NANOS + 1), ReapAsk::Kill);
    assert_eq!(kill_child(ReapAnswer::Paused), ReapAsk::Poll);
    assert_eq!(kill_child(ReapAnswer::Killed), ReapAsk::Over(ReapEnd::ForceKilled));
}

#[test]
fn a_child_that_exits_is_not_killed() {
    assert_eq!(polled(ChildStatus::Exited, 5), ReapAsk::Over(ReapEnd::ExitedCleanly));
    assert_eq!(
        polled(ChildStatus::Exited, GRACE_NANOS + 1),
        ReapAsk::Over(ReapEnd::ExitedCleanly)
    );
    assert_eq!(polled(ChildStatus::Unknown, GRACE_NANOS + 1), ReapAsk::Over(ReapEnd::Lost));
}

#[test]
fn a_child_is_asked_to_end_before_it_is_killed() {
    let mut answer = ReapAnswer::Found(ChildStatus::Running);
    let mut elapsed: u128 = 0;
    let mut asks = Vec::new();
    let end = loop {
        let ask = kill_child(answer);
        asks.push(ask);
        answer = match ask {
            ReapAsk::Terminate => ReapAnswer::Asked,
            ReapAsk::Poll => ReapAnswer::Polled { status: ChildStatus::Running, elapsed },
            ReapAsk::Pause(millis) => {
                elapsed += millis as u128 * 1_000_000;
                ReapAnswer::Paused
            }
            ReapAsk::Kill => ReapAnswer::Killed,
            ReapAsk::Over(end) => break end,
        };
    };
    assert_eq!(end, ReapEnd::ForceKilled);
    assert_eq!(asks[0], ReapAsk::Terminate);
    assert_eq!(asks[1], ReapAsk::Poll);
    assert_eq!(asks.iter().filter(|ask| matches!(ask, ReapAsk::Pause(_))).count(), 41);
    assert_eq!(asks.iter().filter(|ask| **ask == ReapAsk::Terminate).count(), 1);
    assert_eq!(asks.iter().filter(|ask| **ask == ReapAsk::Kill).count(), 1);
}

#[test]
fn a_child_that_ends_on_request_is_not_killed() {
    assert_eq!(kill_child(ReapAnswer::Asked), ReapAsk::Poll);
    assert_eq!(polled(ChildStatus::Exited, 1), ReapAsk::Over(ReapEnd::ExitedCleanly));
}

#[test]
fn every_end_has_its_report() {
    assert_eq!(
        ReapEnd::AlreadyExited.report_line("chaplin"),
        Some(log("chaplin", "already exited"))
    );
    assert_eq!(
        ReapEnd::ExitedCleanly.report_line("screen-click"),
        Some(log("screen-click", "exited cleanly"))
    );
    assert_eq!(
        ReapEnd::ForceKilled.report_line("chaplin"),
        Some(format!(
            "  \x1b[38;2;255;200;0m!\x1b[0m \x1b[38;2;255;200;0m{:<14}\x1b[0m {}",
            "chaplin", "force-killed after timeout"
        ))
    );
    assert_eq!(ReapEnd::Lost.report_line("chaplin"), None);
}
