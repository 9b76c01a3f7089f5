use chaplin_click::children::ChildStatus;
use chaplin_click::devices::{list_event_devices, DeviceSet, Directory, Probe};
use chaplin_click::errors::BridgeError;
use chaplin_click::input::{RawEvent, EV_KEY, PRESSED};
use chaplin_click::keys::{KEY_A, KEY_DOT, KEY_ENTER, KEY_SPACE};
use chaplin_click::launch::{
    chaplin_launch, screen_click_launch, Launch, Stream, CHAPLIN_DIR, CHAPLIN_SCRIPT,
};
use chaplin_click::session::{Answer, Ask, FlagsOutcome, Session};
use chaplin_click::watch::WatchEnd;

fn set(names: &[&str]) -> DeviceSet {
    let entries = names.iter().map(|name| Some(name.as_bytes().to_vec())).collect();
    list_event_devices(&Directory::Entries(entries)).unwrap()
}

fn press(code: u16) -> RawEvent {
    RawEvent { event_type: EV_KEY, code, value: PRESSED }
}

fn assert_starts_chaplin(launch: &Launch) {
    assert_eq!(launch.program, "bash");
    assert_eq!(launch.args, ["/home/raz/tools/chaplin/start.sh"]);
    assert_eq!(launch.dir.as_deref(), Some("/home/raz/tools/chaplin"));
    assert_eq!(launch.stdin, Stream::Inherited);
    assert_eq!((launch.stdout, launch.stderr), (Stream::Inherited, Stream::Inherited));
}

fn assert_starts_screen_click(launch: &Launch) {
    assert_eq!(
        launch.program,
        "/home/raz/projects/screen-click/target/release/screen-click"
    );
    assert_eq!(launch.args, ["--daemon", "--fast"]);
    assert_eq!(launch.dir, None);
    assert_eq!(launch.stdin, Stream::Piped);
    assert_eq!((launch.stdout, launch.stderr), (Stream::Inherited, Stream::Inherited));
}

#[test]
fn the_children_are_started_with_what_they_need() {
    assert_starts_chaplin(&chaplin_launch());
    assert_starts_screen_click(&screen_click_launch());
    assert_eq!(CHAPLIN_SCRIPT, format!("{CHAPLIN_DIR}/start.sh"));
}

/// A session that waits for the new device.
fn waiting() -> Session {
    let (mut session, ask) = Session::start();
    assert!(matches!(ask, Ask::ListForAccess));
    match session.run(Answer::AccessListed(Some(set(&["event0", "event1"])))) {
        Ask::OpenForAccess(name) => assert_eq!(name, b"event0"),
        _ => panic!(),
    }
    match session.run(Answer::AccessOpened(true)) {
        Ask::FindChaplin(path) => assert_eq!(path, "/home/raz/tools/chaplin/start.sh"),
        _ => panic!(),
    }
    match session.run(Answer::ChaplinFound(true)) {
        Ask::FindScreenClick(path) => {
            assert_eq!(path, "/home/raz/projects/screen-click/target/release/screen-click");
        }
        _ => panic!(),
    }
    assert!(matches!(session.run(Answer::ScreenClickFound(true)), Ask::ListExisting));
    let listed = Answer::ExistingListed(Some(set(&["event0", "event1", "event2"])));
    match session.run(listed) {
        Ask::SpawnChaplin(launch) => assert_starts_chaplin(&launch),
        _ => panic!(),
    }
    match session.run(Answer::ChaplinSpawned(true)) {
        Ask::AwaitDevice { existing, timeout } => {
            assert_eq!(existing.len(), 3);
            for name in ["event0", "event1", "event2"] {
                assert!(existing.contains(&name.as_bytes().to_vec()));
            }
            assert_eq!(timeout, 60_000_000_000);
        }
        _ => panic!(),
    }
    session
}

/// Starts the click daemon, and tells what comes next.
fn start_clicking(session: &mut Session, ask: Ask) -> Ask {
    match ask {
        Ask::SpawnScreenClick(launch) => assert_starts_screen_click(&launch),
        _ => panic!(),
    }
    assert!(matches!(session.run(Answer::ScreenClickSpawned(true)), Ask::TakeStdin));
    session.run(Answer::StdinTaken(true))
}

fn checked_after_wait(shutdown: bool, chaplin: ChildStatus) -> Answer {
    Answer::CheckedAfterWait { shutdown, chaplin }
}

/// A session that is about to open its device for reading.
fn found() -> Session {
    let mut session = waiting();
    let awaited = Answer::DeviceAwaited(WatchEnd::Found(b"event9".to_vec()));
    let ask = session.run(awaited);
    assert!(matches!(start_clicking(&mut session, ask), Ask::Settle(200)));
    match session.run(Answer::Settled) {
        Ask::ReadName(name) => assert_eq!(name, b"event9"),
        _ => panic!(),
    }
    session
}

/// A session at the beginning of its first round.
fn bridging() -> Session {
    let mut session = found();
    let name = Probe::Opened(Some("py-evdev-uinput".to_string()));
    assert!(matches!(session.run(Answer::NameRead(name)), Ask::ProbeKeyboard(_)));
    let name = Probe::Opened(Some("py-evdev-uinput".to_string()));
    match session.run(Answer::KeyboardProbed(name)) {
        Ask::OpenForReading(device) => assert_eq!(device, b"event9"),
        _ => panic!(),
    }
    assert!(matches!(session.run(Answer::OpenedForReading(true)), Ask::SetNonBlocking));
    assert!(matches!(session.run(Answer::FlagsSet(FlagsOutcome::NonBlocking)), Ask::Check));
    session
}

fn round(session: &mut Session, answer: Answer) -> Ask {
    assert!(matches!(session.run(Answer::Checked(false)), Ask::PollChaplin));
    let ask = session.run(Answer::ChaplinPolled(ChildStatus::Running));
    assert!(matches!(ask, Ask::PollScreenClick));
    let ask = session.run(Answer::ScreenClickPolled(ChildStatus::Running));
    assert!(matches!(ask, Ask::Fetch));
    session.run(answer)
}

fn sentence(ask: Ask) -> String {
    match ask {
        Ask::Send(sentence) => sentence,
        _ => panic!(),
    }
}

fn failure(ask: Ask) -> BridgeError {
    match ask {
        Ask::Failed(error) => error,
        _ => panic!(),
    }
}

#[test]
fn what_is_typed_is_sent() {
    let mut session = bridging();
    let events = vec![
        press(KEY_A), press(KEY_DOT), press(KEY_SPACE), press(KEY_A), press(KEY_A),
        press(KEY_ENTER), press(KEY_A),
    ];
    let ask = round(&mut session, Answer::Fetched(events));
    assert_eq!(sentence(ask), "a.");
    assert_eq!(sentence(session.run(Answer::Sent(true))), "aa");
    assert!(matches!(session.run(Answer::Sent(true)), Ask::Check));
    let ask = round(&mut session, Answer::Fetched(vec![press(KEY_DOT), press(KEY_SPACE)]));
    assert_eq!(sentence(ask), "a.");
    assert!(matches!(session.run(Answer::Sent(true)), Ask::Check));
    assert!(matches!(round(&mut session, Answer::Fetched(vec![])), Ask::Check));
}

#[test]
fn rounds_pause_when_there_is_nothing() {
    let mut session = bridging();
    assert!(matches!(round(&mut session, Answer::NothingFetched), Ask::Pause(10)));
    assert!(matches!(session.run(Answer::Paused), Ask::Check));
    assert!(matches!(round(&mut session, Answer::FetchFailed), Ask::Pause(500)));
    assert!(matches!(session.run(Answer::Paused), Ask::Check));
}

#[test]
fn a_shutdown_stops_everything_in_order() {
    let mut session = bridging();
    assert!(matches!(session.run(Answer::Checked(true)), Ask::StopChaplin));
    assert!(matches!(session.run(Answer::ChaplinStopped), Ask::CloseStdin));
    assert!(matches!(session.run(Answer::StdinClosed), Ask::StopScreenClick));
    assert!(matches!(session.run(Answer::ScreenClickStopped), Ask::Done));
}

#[test]
fn a_child_that_is_gone_stops_the_session() {
    for status in [ChildStatus::Exited, ChildStatus::Unknown] {
        let mut session = bridging();
        session.run(Answer::Checked(false));
        assert!(matches!(session.run(Answer::ChaplinPolled(status)), Ask::StopChaplin));
        let mut session = bridging();
        session.run(Answer::Checked(false));
        session.run(Answer::ChaplinPolled(ChildStatus::Running));
        assert!(matches!(session.run(Answer::ScreenClickPolled(status)), Ask::StopChaplin));
    }
}

#[test]
fn a_broken_pipe_stops_the_session() {
    let mut session = bridging();
    let events = vec![press(KEY_A), press(KEY_ENTER), press(KEY_A), press(KEY_ENTER)];
    assert_eq!(sentence(round(&mut session, Answer::Fetched(events))), "a");
    assert!(matches!(session.run(Answer::Sent(false)), Ask::StopChaplin));
    assert!(matches!(session.run(Answer::ChaplinStopped), Ask::CloseStdin));
}

#[test]
fn a_shutdown_while_waiting_stops_chaplin() {
    let mut session = waiting();
    let ask = session.run(Answer::DeviceAwaited(WatchEnd::NotFound));
    assert!(matches!(ask, Ask::CheckAfterWait));
    let ask = session.run(checked_after_wait(true, ChildStatus::Running));
    assert!(matches!(ask, Ask::StopChaplin));
    assert!(matches!(session.run(Answer::ChaplinStopped), Ask::Done));
}

#[test]
fn the_session_ends_when_chaplin_is_gone_while_waiting() {
    for chaplin in [ChildStatus::Exited, ChildStatus::Unknown] {
        let mut session = waiting();
        session.run(Answer::DeviceAwaited(WatchEnd::NotFound));
        let ask = session.run(checked_after_wait(false, chaplin));
        assert!(matches!(ask, Ask::StopChaplin));
        assert!(matches!(session.run(Answer::ChaplinStopped), Ask::Done));
    }
}

#[test]
fn without_a_new_device_the_manual_mode_runs() {
    let mut session = waiting();
    session.run(Answer::DeviceAwaited(WatchEnd::NotFound));
    let ask = session.run(checked_after_wait(false, ChildStatus::Running));
    assert!(matches!(ask, Ask::ListAfterWait));
    let ask = session.run(Answer::ListedAfterWait(Some(set(&["event2", "event0"]))));
    assert!(matches!(start_clicking(&mut session, ask), Ask::RunManual));
    assert!(matches!(session.run(Answer::ManualEnded), Ask::StopChaplin));
    assert!(matches!(session.run(Answer::ChaplinStopped), Ask::StopScreenClick));
    assert!(matches!(session.run(Answer::ScreenClickStopped), Ask::Done));
}

#[test]
fn the_last_look_may_find_a_device() {
    let mut session = waiting();
    session.run(Answer::DeviceAwaited(WatchEnd::NotFound));
    session.run(checked_after_wait(false, ChildStatus::Running));
    let ask = session.run(Answer::ListedAfterWait(Some(set(&["event2", "event5"]))));
    assert!(matches!(start_clicking(&mut session, ask), Ask::Settle(200)));
    match session.run(Answer::Settled) {
        Ask::ReadName(name) => assert_eq!(name, b"event5"),
        _ => panic!(),
    }
}

#[test]
fn a_device_that_cannot_be_opened_falls_back() {
    let mut session = found();
    assert!(matches!(session.run(Answer::NameRead(Probe::Unopened)), Ask::RunManual));
}

#[test]
fn a_device_that_looks_otherwise_is_not_read() {
    let names = [
        Probe::Opened(Some("ydotoold virtual device".to_string())),
        Probe::Opened(Some("AT Translated Set 2 keyboard".to_string())),
        Probe::Opened(None),
        Probe::Unopened,
    ];
    for name in names {
        let mut session = found();
        session.run(Answer::NameRead(Probe::Opened(None)));
        assert!(matches!(session.run(Answer::KeyboardProbed(name)), Ask::RunManual));
        assert!(matches!(session.run(Answer::ManualEnded), Ask::StopChaplin));
        assert!(matches!(session.run(Answer::ChaplinStopped), Ask::StopScreenClick));
        assert!(matches!(session.run(Answer::ScreenClickStopped), Ask::Done));
    }
}

#[test]
fn each_child_is_started_once() {
    let mut session = Session::start().0;
    let answers = vec![
        Answer::AccessListed(Some(set(&["event0"]))),
        Answer::AccessOpened(true),
        Answer::ChaplinFound(true),
        Answer::ScreenClickFound(true),
        Answer::ExistingListed(Some(set(&["event0"]))),
        Answer::ChaplinSpawned(true),
        Answer::DeviceAwaited(WatchEnd::Found(b"event1".to_vec())),
        Answer::ScreenClickSpawned(true),
        Answer::StdinTaken(true),
        Answer::Settled,
        Answer::NameRead(Probe::Unopened),
        Answer::ManualEnded,
        Answer::ChaplinStopped,
        Answer::ScreenClickStopped,
    ];
    let asks: Vec<Ask> = answers.into_iter().map(|answer| session.run(answer)).collect();
    let places = |is_it: fn(&Ask) -> bool| {
        (0..asks.len()).filter(|i| is_it(&asks[*i])).collect::<Vec<usize>>()
    };
    assert_eq!(places(|ask| matches!(ask, Ask::ListExisting)), [3]);
    assert_eq!(places(|ask| matches!(ask, Ask::SpawnChaplin(_))), [4]);
    assert_eq!(places(|ask| matches!(ask, Ask::AwaitDevice { .. })), [5]);
    assert_eq!(places(|ask| matches!(ask, Ask::SpawnScreenClick(_))), [6]);
    assert_eq!(places(|ask| matches!(ask, Ask::Done)), [13]);
}

#[test]
fn every_failure_has_its_error() {
    let fresh = |answer: Answer| failure(Session::start().0.run(answer));
    assert!(matches!(fresh(Answer::AccessListed(None)), BridgeError::AccessListing));
    assert!(matches!(fresh(Answer::AccessListed(Some(set(&["js0"])))), BridgeError::NoDevices));
    assert!(matches!(fresh(Answer::ChaplinFound(false)), BridgeError::ChaplinMissing));
    assert!(matches!(fresh(Answer::ScreenClickFound(false)), BridgeError::ScreenClickMissing));
    assert!(matches!(fresh(Answer::ExistingListed(None)), BridgeError::Listing));
    assert!(matches!(
        fresh(Answer::ScreenClickSpawned(false)),
        BridgeError::SpawningScreenClick
    ));
    assert!(matches!(fresh(Answer::StdinTaken(false)), BridgeError::TakingStdin));
    assert!(matches!(fresh(Answer::ChaplinSpawned(false)), BridgeError::SpawningChaplin));
    assert!(matches!(
        fresh(Answer::DeviceAwaited(WatchEnd::Failed)),
        BridgeError::Waiting
    ));
    assert!(matches!(fresh(Answer::ListedAfterWait(None)), BridgeError::Listing));
    assert!(matches!(
        fresh(Answer::FlagsSet(FlagsOutcome::GetFailed)),
        BridgeError::GettingFlags
    ));
    assert!(matches!(
        fresh(Answer::FlagsSet(FlagsOutcome::SetFailed)),
        BridgeError::SettingFlags
    ));
    match failure(found().run(Answer::OpenedForReading(false))) {
        BridgeError::Opening(name) => assert_eq!(name, b"event9"),
        _ => panic!(),
    }
    let mut session = Session::start().0;
    session.run(Answer::AccessListed(Some(set(&["event4"]))));
    match failure(session.run(Answer::AccessOpened(false))) {
        BridgeError::NoAccess(name) => assert_eq!(name, b"event4"),
        _ => panic!(),
    }
}
