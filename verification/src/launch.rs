//! What the child processes are started with.

use vstd::prelude::*;

verus! {

/// The directory of Chaplin.
pub const CHAPLIN_DIR: &'static str = "/home/raz/tools/chaplin";

/// The script that starts Chaplin.
pub const CHAPLIN_SCRIPT: &'static str = "/home/raz/tools/chaplin/start.sh";

/// The program of the click daemon.
pub const SCREEN_CLICK_BIN: &'static str =
    "/home/raz/projects/screen-click/target/release/screen-click";

/// What a standard stream of a child is tied to.
#[derive(Clone, Copy, Debug, PartialEq, Eq, Structural)]
pub enum Stream {
    /// The same stream of the bridge.
    Inherited,
    /// A pipe to the bridge.
    Piped,
}

/// What a child is started with.
pub struct Launch {
    /// The program.
    pub program: String,
    /// Its arguments, in their order.
    pub args: Vec<String>,
    /// The directory that it works in, where that is not the one of the bridge.
    pub dir: Option<String>,
    /// Its standard input.
    pub stdin: Stream,
    /// Its standard output.
    pub stdout: Stream,
    /// Its standard error.
    pub stderr: Stream,
}

/// `Launch`, with texts as sequences.
pub struct LaunchModel {
    pub program: Seq<char>,
    pub args: Seq<Seq<char>>,
    pub dir: Option<Seq<char>>,
    pub stdin: Stream,
    pub stdout: Stream,
    pub stderr: Stream,
}

impl View for Launch {
    type V = LaunchModel;

    open spec fn view(&self) -> LaunchModel {
        LaunchModel {
            program: self.program@,
            args: self.args.deep_view(),
            dir: self.dir.deep_view(),
            stdin: self.stdin,
            stdout: self.stdout,
            stderr: self.stderr,
        }
    }
}

/// Chaplin is started by its script, which a shell runs in the script's directory.
pub open spec fn chaplin_start() -> LaunchModel {
    LaunchModel {
        program: "bash"@,
        args: seq![CHAPLIN_SCRIPT@],
        dir: Some(CHAPLIN_DIR@),
        stdin: Stream::Inherited,
        stdout: Stream::Inherited,
        stderr: Stream::Inherited,
    }
}

/// The click daemon is started as a daemon, in its fast mode, and its standard input is a pipe.
pub open spec fn screen_click_start() -> LaunchModel {
    LaunchModel {
        program: SCREEN_CLICK_BIN@,
        args: seq!["--daemon"@, "--fast"@],
        dir: None,
        stdin: Stream::Piped,
        stdout: Stream::Inherited,
        stderr: Stream::Inherited,
    }
}

/// What Chaplin is started with. The script is a file in the directory that it is run in.
pub fn chaplin_launch() -> (r: Launch)
    ensures
        r@ == chaplin_start(),
        r@.args == seq![CHAPLIN_DIR@ + "/start.sh"@],
{
    proof {
        reveal_strlit("/home/raz/tools/chaplin");
        reveal_strlit("/home/raz/tools/chaplin/start.sh");
        reveal_strlit("/start.sh");
        assert(CHAPLIN_SCRIPT@ == CHAPLIN_DIR@ + "/start.sh"@);
    }
    let r = Launch {
        program: "bash".to_string(),
        args: vec![CHAPLIN_SCRIPT.to_string()],
        dir: Some(CHAPLIN_DIR.to_string()),
        stdin: Stream::Inherited,
        stdout: Stream::Inherited,
        stderr: Stream::Inherited,
    };
    assert(r@.args == chaplin_start().args);
    r
}

/// What the click daemon is started with.
pub fn screen_click_launch() -> (r: Launch)
    ensures
        r@ == screen_click_start(),
{
    let r = Launch {
        program: SCREEN_CLICK_BIN.to_string(),
        args: vec!["--daemon".to_string(), "--fast".to_string()],
        dir: None,
        stdin: Stream::Piped,
        stdout: Stream::Inherited,
        stderr: Stream::Inherited,
    };
    assert(r@.args == screen_click_start().args);
    r
}

} // verus!
