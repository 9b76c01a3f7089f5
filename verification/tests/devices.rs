use chaplin_click::children::ChildStatus;
use chaplin_click::devices::{
    is_virtual_keyboard, list_event_devices, looks_virtual_keyboard, names_event_device,
    text_of_name, DeviceSet, Directory, Probe,
};
use chaplin_click::watch::{
    find_created, wait_for_new_device, WatchAnswer, WatchAsk, WatchEnd, WATCH_PAUSE_MS,
};

fn list(entries: Vec<Option<Vec<u8>>>) -> Option<DeviceSet> {
    list_event_devices(&Directory::Entries(entries))
}

fn set(names: &[&str]) -> DeviceSet {
    list(names.iter().map(|name| Some(name.as_bytes().to_vec())).collect()).unwrap()
}

fn named(name: &str) -> Probe {
    Probe::Opened(Some(name.to_string()))
}

fn found(ask: WatchAsk) -> Option<String> {
    match ask {
        WatchAsk::Over(WatchEnd::Found(name)) => Some(String::from_utf8(name).unwrap()),
        _ => None,
    }
}

fn created(names: &[Option<&str>]) -> WatchAnswer {
    WatchAnswer::Created(names.iter().map(|name| name.map(|n| n.as_bytes().to_vec())).collect())
}

#[test]
fn event_devices_are_listed_once_and_in_order() {
    let devices = set(&["by-id", "mice", "event3", "mouse0", "event0", "event3", "js0", "an event"]);
    assert_eq!(devices.len(), 2);
    assert_eq!(devices.first(), Some(b"event3".to_vec()));
    assert!(devices.contains(&b"event0".to_vec()));
    assert!(!devices.contains(&b"mouse0".to_vec()));
    assert!(!devices.contains(&b"event".to_vec()));
}

#[test]
fn no_files_no_devices() {
    let devices = set(&[]);
    assert_eq!(devices.len(), 0);
    assert_eq!(devices.first(), None);
    assert_eq!(DeviceSet::new().len(), 0);
}

#[test]
fn a_listing_needs_all_of_the_directory() {
    assert_eq!(list_event_devices(&Directory::Absent).map(|devices| devices.len()), Some(0));
    assert!(list_event_devices(&Directory::Unreadable).is_none());
    let event = Some(b"event0".to_vec());
    assert!(list(vec![event.clone(), None]).is_none());
    assert!(list(vec![None, event.clone()]).is_none());
    assert_eq!(list(vec![event]).map(|devices| devices.len()), Some(1));
}

#[test]
fn a_copy_holds_the_same_devices() {
    let devices = set(&["event3", "event1"]);
    let copy = devices.copy();
    assert_eq!(copy.len(), 2);
    assert_eq!(copy.first(), Some(b"event3".to_vec()));
    assert!(copy.contains(&b"event1".to_vec()));
}

#[test]
fn names_that_are_no_utf8_count_too() {
    let odd = b"event\xff".to_vec();
    let devices = list(vec![Some(odd.clone()), Some(b"\xffevent".to_vec())]).unwrap();
    assert_eq!(devices.len(), 1);
    assert!(devices.contains(&odd));
    assert_eq!(text_of_name(&odd), "event\u{fffd}");
    assert_eq!(text_of_name(&"évent".as_bytes().to_vec()), "évent");
}

#[test]
fn entries_are_taken_by_their_text() {
    let mut devices = DeviceSet::new();
    devices.add_entry(&b"event1".to_vec(), "event1");
    devices.add_entry(&b"event1".to_vec(), "event1");
    devices.add_entry(&b"event2".to_vec(), "mouse2");
    assert_eq!(devices.len(), 1);
    assert!(names_event_device("event"));
    assert!(!names_event_device("even"));
}

#[test]
fn the_first_new_device_is_found() {
    let existing = set(&["event0", "event1"]);
    assert_eq!(
        set(&["event1", "event7", "event0", "event8"]).first_not_in(&existing),
        Some(b"event7".to_vec())
    );
    assert_eq!(set(&["event1"]).first_not_in(&existing), None);
    assert_eq!(set(&[]).first_not_in(&existing), None);
}

#[test]
fn a_new_name_is_a_new_device() {
    let existing = set(&["event0"]);
    assert_eq!(existing.new_device("event1"), Some(b"event1".to_vec()));
    assert_eq!(existing.new_device("event0"), None);
    assert_eq!(existing.new_device("mouse1"), None);
}

#[test]
fn virtual_keyboards_are_told_by_their_names() {
    assert!(is_virtual_keyboard(&named("py-evdev-uinput")));
    assert!(is_virtual_keyboard(&named("Some Virtual Keyboard")));
    assert!(is_virtual_keyboard(&named("PY-EVDEV-UINPUT")));
    assert!(is_virtual_keyboard(&named("ÄÖ UInput")));
    assert!(!is_virtual_keyboard(&named("ydotoold virtual device")));
    assert!(!is_virtual_keyboard(&named("YDOTOOLD Virtual Device")));
    assert!(!is_virtual_keyboard(&named("AT Translated Set 2 keyboard")));
    assert!(!is_virtual_keyboard(&named("")));
    assert!(!is_virtual_keyboard(&Probe::Opened(None)));
    assert!(!is_virtual_keyboard(&Probe::Unopened));
    assert!(looks_virtual_keyboard("uinput"));
    assert!(!looks_virtual_keyboard("UINPUT"));
    assert!(!looks_virtual_keyboard("uinput ydotool"));
}

#[test]
fn waiting_finds_what_appeared_before_the_watch() {
    let existing = set(&["event0"]);
    let answer = WatchAnswer::Listed(set(&["event0", "event5"]));
    assert_eq!(found(wait_for_new_device(&existing, 10, &answer)), Some("event5".to_string()));
    let answer = WatchAnswer::Listed(set(&["event0"]));
    assert!(matches!(wait_for_new_device(&existing, 10, &answer), WatchAsk::Check));
}

#[test]
fn waiting_finds_the_first_created_device() {
    let existing = set(&["event0"]);
    let answer = created(&[None, Some("js0"), Some("event0"), Some("event6"), Some("event7")]);
    assert_eq!(found(wait_for_new_device(&existing, 10, &answer)), Some("event6".to_string()));
    let answer = created(&[None, Some("js0"), Some("event0")]);
    assert!(matches!(wait_for_new_device(&existing, 10, &answer), WatchAsk::Check));
    assert!(matches!(wait_for_new_device(&existing, 10, &created(&[])), WatchAsk::Check));
}

#[test]
fn a_created_name_that_is_no_utf8_is_replaced() {
    let names = vec![Some(b"event\xff".to_vec())];
    assert_eq!(
        find_created(&names, &DeviceSet::new()),
        Some("event\u{fffd}".as_bytes().to_vec())
    );
}

#[test]
fn waiting_gives_up_in_time() {
    let existing = set(&[]);
    let ask = |shutdown: bool, elapsed: u128| {
        let chaplin = ChildStatus::Running;
        wait_for_new_device(&existing, 60, &WatchAnswer::Checked { shutdown, chaplin, elapsed })
    };
    assert!(matches!(ask(false, 0), WatchAsk::Read));
    assert!(matches!(ask(false, 60), WatchAsk::Read));
    assert!(matches!(ask(false, 61), WatchAsk::Over(WatchEnd::NotFound)));
    assert!(matches!(ask(true, 0), WatchAsk::Over(WatchEnd::NotFound)));
}

#[test]
fn waiting_pauses_and_fails() {
    let existing = set(&[]);
    let ask = |answer: WatchAnswer| wait_for_new_device(&existing, 60, &answer);
    assert_eq!(WATCH_PAUSE_MS, 200);
    assert!(matches!(ask(WatchAnswer::Nothing), WatchAsk::Pause(200)));
    assert!(matches!(ask(WatchAnswer::Paused), WatchAsk::Check));
    assert!(matches!(ask(WatchAnswer::ListFailed), WatchAsk::Over(WatchEnd::Failed)));
    assert!(matches!(ask(WatchAnswer::ReadFailed), WatchAsk::Over(WatchEnd::Failed)));
}

#[test]
fn waiting_gives_up_when_chaplin_is_gone() {
    let existing = set(&[]);
    for chaplin in [ChildStatus::Exited, ChildStatus::Unknown] {
        let answer = WatchAnswer::Checked { shutdown: false, chaplin, elapsed: 0 };
        let ask = wait_for_new_device(&existing, 60, &answer);
        assert!(matches!(ask, WatchAsk::Over(WatchEnd::NotFound)));
    }
}

/// Waits, where each reading shows these created files, and tells what was found and how many
/// readings there were.
fn wait(existing: &DeviceSet, readings: &[&[Option<&str>]]) -> (Option<String>, usize) {
    let mut read = 0;
    let mut elapsed: u128 = 0;
    let mut answer = WatchAnswer::Listed(set(&["event0"]));
    loop {
        answer = match wait_for_new_device(existing, 1_000_000_000, &answer) {
            WatchAsk::Check => {
                let chaplin = ChildStatus::Running;
                WatchAnswer::Checked { shutdown: false, chaplin, elapsed }
            }
            WatchAsk::Read => {
                read += 1;
                if read <= readings.len() {
                    created(readings[read - 1])
                } else {
                    WatchAnswer::Nothing
                }
            }
            WatchAsk::Pause(millis) => {
                elapsed += millis as u128 * 1_000_000;
                WatchAnswer::Paused
            }
            over => return (found(over), read),
        };
    }
}

#[test]
fn a_waiting_ends_with_the_first_new_device() {
    let existing = set(&["event0"]);
    assert_eq!(
        wait(&existing, &[&[Some("js1")], &[], &[None, Some("event4")], &[Some("event3")]]),
        (Some("event4".to_string()), 3)
    );
    assert_eq!(wait(&existing, &[&[Some("event0")]]), (None, 7));
    assert_eq!(wait(&set(&[]), &[&[Some("event4")]]), (Some("event0".to_string()), 0));
}

#[test]
fn the_case_of_a_name_makes_no_difference() {
    let names = [
        "py-evdev-uinput", "Virtual Keyboard", "ydotoold virtual device", "mouse",
        "Ä ΑΣ Uinput", "ΣaΣ virtual \u{130}", "É YdoTool Virtual", "Ω Mouse",
    ];
    for name in names {
        let plain = is_virtual_keyboard(&named(name));
        assert_eq!(is_virtual_keyboard(&named(&name.to_ascii_uppercase())), plain);
        assert_eq!(is_virtual_keyboard(&named(&name.to_ascii_lowercase())), plain);
    }
}
