//! What can end the bridge before its time, and what is said of it.

use crate::devices::{name_text, text_of_name, DEVICE_DIR};
use crate::launch::{CHAPLIN_SCRIPT, SCREEN_CLICK_BIN};
use vstd::prelude::*;
use vstd::string::StringExecFns;

verus! {

/// What is said where there are no event devices.
pub const NO_DEVICES: &'static str = "no /dev/input/event* devices found.\n\
    Ensure user is in the 'input' group: sudo usermod -aG input $USER\n\
    Then log out and back in.";

/// What is said behind the path of a device that cannot be opened.
pub const ACCESS_HINT: &'static str = ": permission denied.\n\
    Add user to 'input' group: sudo usermod -aG input $USER\n\
    Then log out and back in.";

/// What is said behind the path of a click daemon that is not there.
pub const BUILD_HINT: &'static str =
    "\nBuild it: cd ~/projects/screen-click && cargo build --release";

/// Why the bridge failed. A device is known by the name of its file.
pub enum BridgeError {
    /// The devices could not be listed when access to them was checked.
    AccessListing,
    /// There are no event devices.
    NoDevices,
    /// A device could not be opened when access to it was checked.
    NoAccess(Vec<u8>),
    /// The script that starts Chaplin is not there.
    ChaplinMissing,
    /// The program of the click daemon is not there.
    ScreenClickMissing,
    /// The devices could not be listed later on.
    Listing,
    /// The click daemon could not be started.
    SpawningScreenClick,
    /// The click daemon has no standard input to write to.
    TakingStdin,
    /// Chaplin could not be started.
    SpawningChaplin,
    /// The waiting for a new device failed.
    Waiting,
    /// The new device could not be opened for reading.
    Opening(Vec<u8>),
    /// The flags of the opened device could not be read.
    GettingFlags,
    /// The opened device could not be set to non-blocking.
    SettingFlags,
}

/// `BridgeError`, with the bytes of a name as a sequence.
pub enum BridgeErrorModel {
    AccessListing,
    NoDevices,
    NoAccess(Seq<u8>),
    ChaplinMissing,
    ScreenClickMissing,
    Listing,
    SpawningScreenClick,
    TakingStdin,
    SpawningChaplin,
    Waiting,
    Opening(Seq<u8>),
    GettingFlags,
    SettingFlags,
}

impl View for BridgeError {
    type V = BridgeErrorModel;

    open spec fn view(&self) -> BridgeErrorModel {
        match self {
            BridgeError::AccessListing => BridgeErrorModel::AccessListing,
            BridgeError::NoDevices => BridgeErrorModel::NoDevices,
            BridgeError::NoAccess(name) => BridgeErrorModel::NoAccess(name@),
            BridgeError::ChaplinMissing => BridgeErrorModel::ChaplinMissing,
            BridgeError::ScreenClickMissing => BridgeErrorModel::ScreenClickMissing,
            BridgeError::Listing => BridgeErrorModel::Listing,
            BridgeError::SpawningScreenClick => BridgeErrorModel::SpawningScreenClick,
            BridgeError::TakingStdin => BridgeErrorModel::TakingStdin,
            BridgeError::SpawningChaplin => BridgeErrorModel::SpawningChaplin,
            BridgeError::Waiting => BridgeErrorModel::Waiting,
            BridgeError::Opening(name) => BridgeErrorModel::Opening(name@),
            BridgeError::GettingFlags => BridgeErrorModel::GettingFlags,
            BridgeError::SettingFlags => BridgeErrorModel::SettingFlags,
        }
    }
}

/// The path of a device, as text.
pub open spec fn path_text(name: Seq<u8>) -> Seq<char> {
    DEVICE_DIR@ + "/"@ + name_text(name)
}

/// What is said of an error. Of two there is nothing to say beyond what the system says.
pub open spec fn error_text(error: BridgeErrorModel) -> Option<Seq<char>> {
    match error {
        BridgeErrorModel::AccessListing => Some("listing /dev/input"@),
        BridgeErrorModel::NoDevices => Some(NO_DEVICES@),
        BridgeErrorModel::NoAccess(name) => Some(
            "cannot open "@ + path_text(name) + ACCESS_HINT@,
        ),
        BridgeErrorModel::ChaplinMissing => Some("Chaplin not found at "@ + CHAPLIN_SCRIPT@),
        BridgeErrorModel::ScreenClickMissing => Some(
            "screen-click not found at "@ + SCREEN_CLICK_BIN@ + BUILD_HINT@,
        ),
        BridgeErrorModel::Listing => None,
        BridgeErrorModel::SpawningScreenClick => Some("spawning screen-click --daemon"@),
        BridgeErrorModel::TakingStdin => Some("taking screen-click stdin"@),
        BridgeErrorModel::SpawningChaplin => Some("spawning Chaplin"@),
        BridgeErrorModel::Waiting => None,
        BridgeErrorModel::Opening(name) => Some("opening "@ + path_text(name)),
        BridgeErrorModel::GettingFlags => Some("fcntl F_GETFL failed"@),
        BridgeErrorModel::SettingFlags => Some("fcntl F_SETFL O_NONBLOCK failed"@),
    }
}

/// The path of a device, as text.
pub fn shown_path(name: &Vec<u8>) -> (r: String)
    ensures
        r@ == path_text(name@),
{
    let text: String = text_of_name(name);
    let mut r: String = DEVICE_DIR.to_string();
    r.append("/");
    r.append(text.as_str());
    r
}

impl BridgeError {
    /// What is said of the error, if there is anything to say beyond what the system says.
    pub fn message(&self) -> (r: Option<String>)
        ensures
            r.deep_view() == error_text(self@),
    {
        match self {
            BridgeError::AccessListing => Some("listing /dev/input".to_string()),
            BridgeError::NoDevices => Some(NO_DEVICES.to_string()),
            BridgeError::NoAccess(name) => {
                let path: String = shown_path(name);
                let mut r: String = "cannot open ".to_string();
                r.append(path.as_str());
                r.append(ACCESS_HINT);
                Some(r)
            },
            BridgeError::ChaplinMissing => {
                let mut r: String = "Chaplin not found at ".to_string();
                r.append(CHAPLIN_SCRIPT);
                Some(r)
            },
            BridgeError::ScreenClickMissing => {
                let mut r: String = "screen-click not found at ".to_string();
                r.append(SCREEN_CLICK_BIN);
                r.append(BUILD_HINT);
                Some(r)
            },
            BridgeError::Listing => None,
            BridgeError::SpawningScreenClick => Some("spawning screen-click --daemon".to_string()),
            BridgeError::TakingStdin => Some("taking screen-click stdin".to_string()),
            BridgeError::SpawningChaplin => Some("spawning Chaplin".to_string()),
            BridgeError::Waiting => None,
            BridgeError::Opening(name) => {
                let path: String = shown_path(name);
                let mut r: String = "opening ".to_string();
                r.append(path.as_str());
                Some(r)
            },
            BridgeError::GettingFlags => Some("fcntl F_GETFL failed".to_string()),
            BridgeError::SettingFlags => Some("fcntl F_SETFL O_NONBLOCK failed".to_string()),
        }
    }
}

/// A device is shown by its path: its name, as text, in the directory of the input devices.
pub proof fn law_path_text(name: Seq<u8>)
    ensures
        path_text(name) == "/dev/input/"@ + name_text(name),
{
    reveal_strlit("/dev/input");
    reveal_strlit("/");
    reveal_strlit("/dev/input/");
    assert(path_text(name) == "/dev/input/"@ + name_text(name));
}

/// What is said of a device that cannot be opened names the device by its path, whatever its name,
/// and says the same of every device. There is something to say of every error but those that come
/// with nothing beyond what the system says: a later listing, or the waiting, that failed.
pub proof fn law_error_text(error: BridgeErrorModel)
    ensures
        error_text(error) is None <==> error is Listing || error is Waiting,
        error matches BridgeErrorModel::NoAccess(name) ==> error_text(error) == Some(
            "cannot open /dev/input/"@ + name_text(name) + ACCESS_HINT@,
        ),
        error matches BridgeErrorModel::Opening(name) ==> error_text(error) == Some(
            "opening /dev/input/"@ + name_text(name),
        ),
{
    reveal_strlit("/dev/input/");
    match error {
        BridgeErrorModel::NoAccess(name) => {
            law_path_text(name);
            reveal_strlit("cannot open ");
            reveal_strlit("cannot open /dev/input/");
            assert(error_text(error)->0 == "cannot open /dev/input/"@ + name_text(name)
                + ACCESS_HINT@);
        },
        BridgeErrorModel::Opening(name) => {
            law_path_text(name);
            reveal_strlit("opening ");
            reveal_strlit("opening /dev/input/");
            assert(error_text(error)->0 == "opening /dev/input/"@ + name_text(name));
        },
        _ => {},
    }
}

} // verus!
