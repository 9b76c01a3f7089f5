use chaplin_click::errors::{shown_path, BridgeError};
use chaplin_click::status::{log, warn};

#[test]
fn reports_have_a_column_of_tags() {
    assert_eq!(
        log("chaplin", "starting..."),
        format!(
            "  \x1b[38;2;0;255;200m>\x1b[0m \x1b[38;2;0;200;160m{:<14}\x1b[0m {}",
            "chaplin", "starting..."
        )
    );
    assert_eq!(
        warn("pipe", "flush failed"),
        format!(
            "  \x1b[38;2;255;200;0m!\x1b[0m \x1b[38;2;255;200;0m{:<14}\x1b[0m {}",
            "pipe", "flush failed"
        )
    );
    for tag in ["", "exactly-14-abc", "a-tag-longer-than-that", "é"] {
        assert_eq!(
            log(tag, "m"),
            format!("  \x1b[38;2;0;255;200m>\x1b[0m \x1b[38;2;0;200;160m{:<14}\x1b[0m m", tag)
        );
    }
}

#[test]
fn errors_say_what_to_do() {
    let said = |error: BridgeError| error.message();
    let some = |text: &str| Some(text.to_string());
    assert_eq!(said(BridgeError::AccessListing), some("listing /dev/input"));
    assert_eq!(
        said(BridgeError::NoDevices),
        some("no /dev/input/event* devices found.\nEnsure user is in the 'input' group: sudo usermod -aG input $USER\nThen log out and back in.")
    );
    assert_eq!(
        said(BridgeError::NoAccess(b"event0".to_vec())),
        some("cannot open /dev/input/event0: permission denied.\nAdd user to 'input' group: sudo usermod -aG input $USER\nThen log out and back in.")
    );
    assert_eq!(
        said(BridgeError::ChaplinMissing),
        some("Chaplin not found at /home/raz/tools/chaplin/start.sh")
    );
    assert_eq!(
        said(BridgeError::ScreenClickMissing),
        some("screen-click not found at /home/raz/projects/screen-click/target/release/screen-click\nBuild it: cd ~/projects/screen-click && cargo build --release")
    );
    assert_eq!(said(BridgeError::Listing), None);
    assert_eq!(said(BridgeError::SpawningScreenClick), some("spawning screen-click --daemon"));
    assert_eq!(said(BridgeError::TakingStdin), some("taking screen-click stdin"));
    assert_eq!(said(BridgeError::SpawningChaplin), some("spawning Chaplin"));
    assert_eq!(said(BridgeError::Waiting), None);
    assert_eq!(
        said(BridgeError::Opening(b"event9".to_vec())),
        some("opening /dev/input/event9")
    );
    assert_eq!(said(BridgeError::GettingFlags), some("fcntl F_GETFL failed"));
    assert_eq!(said(BridgeError::SettingFlags), some("fcntl F_SETFL O_NONBLOCK failed"));
}

#[test]
fn paths_are_shown_as_text() {
    assert_eq!(shown_path(&b"event3".to_vec()), "/dev/input/event3");
    assert_eq!(shown_path(&b"event\xff".to_vec()), "/dev/input/event\u{fffd}");
}
