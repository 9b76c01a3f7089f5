//! The course of a session, from the first look at the devices to the stopping of the
//! children. The session decides; whoever runs it does what it asks for and answers.

use crate::children::ChildStatus;
use crate::devices::{first_new, is_virtual_keyboard, probed_virtual, DeviceSet, Probe};
use crate::errors::{BridgeError, BridgeErrorModel};
use crate::input::RawEvent;
use crate::launch::{
    chaplin_launch, chaplin_start, screen_click_launch, screen_click_start, Launch, LaunchModel,
    CHAPLIN_SCRIPT, SCREEN_CLICK_BIN,
};
use crate::sentences::{after_event, blank, SentenceBuffer, Typing};
use crate::watch::WatchEnd;
use vstd::prelude::*;

verus! {

/// How long to wait for the new device, in nanoseconds.
pub const WAIT_NANOS: u128 = 60_000_000_000;

/// How long to let the new device settle, in milliseconds.
pub const SETTLE_MS: u64 = 200;

/// How long to pause when there are no events, in milliseconds.
pub const IDLE_MS: u64 = 10;

/// How long to pause when the events could not be read, in milliseconds.
pub const RETRY_MS: u64 = 500;

/// What the session asks for.
pub enum Ask {
    /// List the devices, to see whether there is access to them.
    ListForAccess,
    /// Open this device, to see whether there is access to it.
    OpenForAccess(Vec<u8>),
    /// See whether the script that starts Chaplin is there, at this path.
    FindChaplin(String),
    /// See whether the program of the click daemon is there, at this path.
    FindScreenClick(String),
    /// List the devices that are there before Chaplin starts.
    ListExisting,
    /// Start Chaplin with this.
    SpawnChaplin(Launch),
    /// Wait for a device that is not among the existing ones, for so many nanoseconds at most.
    AwaitDevice { existing: DeviceSet, timeout: u128 },
    /// See whether the waiting ended for a shutdown, or because Chaplin is gone.
    CheckAfterWait,
    /// List the devices once more.
    ListAfterWait,
    /// Start the click daemon with this.
    SpawnScreenClick(Launch),
    /// Take hold of the standard input of the click daemon.
    TakeStdin,
    /// Let the new device settle for so many milliseconds.
    Settle(u64),
    /// Open the new device for its name.
    ReadName(Vec<u8>),
    /// Open the new device to see whether it looks like a virtual keyboard.
    ProbeKeyboard(Vec<u8>),
    /// Open the new device, which is a virtual keyboard, for reading.
    OpenForReading(Vec<u8>),
    /// Set the opened device to non-blocking.
    SetNonBlocking,
    /// See whether a shutdown was asked for.
    Check,
    /// Look at Chaplin.
    PollChaplin,
    /// Look at the click daemon.
    PollScreenClick,
    /// Read the events that there are.
    Fetch,
    /// Send a sentence to the click daemon as one line.
    Send(String),
    /// Pause for so many milliseconds.
    Pause(u64),
    /// Run the manual mode.
    RunManual,
    /// Stop Chaplin.
    StopChaplin,
    /// Close the standard input of the click daemon.
    CloseStdin,
    /// Stop the click daemon.
    StopScreenClick,
    /// Nothing: the session is over, and all is well.
    Done,
    /// Nothing: the session has failed.
    Failed(BridgeError),
}

/// What setting the opened device to non-blocking came to.
#[derive(Clone, Copy, Debug, PartialEq, Eq, Structural)]
pub enum FlagsOutcome {
    /// The device is non-blocking.
    NonBlocking,
    /// Its flags could not be read.
    GetFailed,
    /// Its flags could not be set.
    SetFailed,
}

/// What came of what was asked.
pub enum Answer {
    /// To `ListForAccess`: the devices, or none where they could not be listed.
    AccessListed(Option<DeviceSet>),
    /// To `OpenForAccess`: whether the device could be opened.
    AccessOpened(bool),
    /// To `FindChaplin`: whether the script is there.
    ChaplinFound(bool),
    /// To `FindScreenClick`: whether the program is there.
    ScreenClickFound(bool),
    /// To `ListExisting`: the devices, or none where they could not be listed.
    ExistingListed(Option<DeviceSet>),
    /// To `SpawnChaplin`: whether Chaplin was started.
    ChaplinSpawned(bool),
    /// To `AwaitDevice`: how the waiting ended.
    DeviceAwaited(WatchEnd),
    /// To `CheckAfterWait`: whether a shutdown was asked for, and what a look at Chaplin shows.
    CheckedAfterWait { shutdown: bool, chaplin: ChildStatus },
    /// To `ListAfterWait`: the devices, or none where they could not be listed.
    ListedAfterWait(Option<DeviceSet>),
    /// To `SpawnScreenClick`: whether the click daemon was started.
    ScreenClickSpawned(bool),
    /// To `TakeStdin`: whether there is a standard input.
    StdinTaken(bool),
    /// To `Settle`.
    Settled,
    /// To `ReadName`: what opening the device has shown.
    NameRead(Probe),
    /// To `ProbeKeyboard`: what opening the device has shown.
    KeyboardProbed(Probe),
    /// To `OpenForReading`: whether the device could be opened.
    OpenedForReading(bool),
    /// To `SetNonBlocking`.
    FlagsSet(FlagsOutcome),
    /// To `Check`: whether a shutdown was asked for.
    Checked(bool),
    /// To `PollChaplin`.
    ChaplinPolled(ChildStatus),
    /// To `PollScreenClick`.
    ScreenClickPolled(ChildStatus),
    /// To `Fetch`: these events were read.
    Fetched(Vec<RawEvent>),
    /// To `Fetch`: there are no events.
    NothingFetched,
    /// To `Fetch`: the events could not be read.
    FetchFailed,
    /// To `Send`: whether the sentence was sent.
    Sent(bool),
    /// To `Pause`.
    Paused,
    /// To `RunManual`: it has ended.
    ManualEnded,
    /// To `StopChaplin`.
    ChaplinStopped,
    /// To `CloseStdin`.
    StdinClosed,
    /// To `StopScreenClick`.
    ScreenClickStopped,
}

/// `Ask`, with bytes and texts as sequences.
pub enum AskModel {
    ListForAccess,
    OpenForAccess(Seq<u8>),
    FindChaplin(Seq<char>),
    FindScreenClick(Seq<char>),
    ListExisting,
    SpawnChaplin(LaunchModel),
    AwaitDevice { existing: Seq<Seq<u8>>, timeout: u128 },
    CheckAfterWait,
    ListAfterWait,
    SpawnScreenClick(LaunchModel),
    TakeStdin,
    Settle(u64),
    ReadName(Seq<u8>),
    ProbeKeyboard(Seq<u8>),
    OpenForReading(Seq<u8>),
    SetNonBlocking,
    Check,
    PollChaplin,
    PollScreenClick,
    Fetch,
    Send(Seq<char>),
    Pause(u64),
    RunManual,
    StopChaplin,
    CloseStdin,
    StopScreenClick,
    Done,
    Failed(BridgeErrorModel),
}

impl View for Ask {
    type V = AskModel;

    open spec fn view(&self) -> AskModel {
        match self {
            Ask::ListForAccess => AskModel::ListForAccess,
            Ask::OpenForAccess(device) => AskModel::OpenForAccess(device@),
            Ask::FindChaplin(path) => AskModel::FindChaplin(path@),
            Ask::FindScreenClick(path) => AskModel::FindScreenClick(path@),
            Ask::ListExisting => AskModel::ListExisting,
            Ask::SpawnChaplin(launch) => AskModel::SpawnChaplin(launch@),
            Ask::AwaitDevice { existing, timeout } => AskModel::AwaitDevice {
                existing: existing@,
                timeout: *timeout,
            },
            Ask::CheckAfterWait => AskModel::CheckAfterWait,
            Ask::ListAfterWait => AskModel::ListAfterWait,
            Ask::SpawnScreenClick(launch) => AskModel::SpawnScreenClick(launch@),
            Ask::TakeStdin => AskModel::TakeStdin,
            Ask::Settle(millis) => AskModel::Settle(*millis),
            Ask::ReadName(device) => AskModel::ReadName(device@),
            Ask::ProbeKeyboard(device) => AskModel::ProbeKeyboard(device@),
            Ask::OpenForReading(device) => AskModel::OpenForReading(device@),
            Ask::SetNonBlocking => AskModel::SetNonBlocking,
            Ask::Check => AskModel::Check,
            Ask::PollChaplin => AskModel::PollChaplin,
            Ask::PollScreenClick => AskModel::PollScreenClick,
            Ask::Fetch => AskModel::Fetch,
            Ask::Send(sentence) => AskModel::Send(sentence@),
            Ask::Pause(millis) => AskModel::Pause(*millis),
            Ask::RunManual => AskModel::RunManual,
            Ask::StopChaplin => AskModel::StopChaplin,
            Ask::CloseStdin => AskModel::CloseStdin,
            Ask::StopScreenClick => AskModel::StopScreenClick,
            Ask::Done => AskModel::Done,
            Ask::Failed(error) => AskModel::Failed(error@),
        }
    }
}

/// What the session keeps in mind.
pub struct SessionModel {
    /// The devices that were there before Chaplin started.
    pub existing: Seq<Seq<u8>>,
    /// The device that the session deals with.
    pub device: Seq<u8>,
    /// Whether that device is a new one.
    pub found: bool,
    /// Whether a probe of that device has shown a virtual keyboard.
    pub virtual_keyboard: bool,
    /// Whether the click daemon was started.
    pub clicking: bool,
    /// Whether the events of the device are being read.
    pub bridging: bool,
    /// What has been typed.
    pub typing: Typing,
    /// The events that were read and have not been looked at yet.
    pub queue: Seq<RawEvent>,
}

/// Looks at the events in the queue until one completes a sentence, or none is left.
pub open spec fn drained(typing: Typing, queue: Seq<RawEvent>) -> (
    Typing,
    Seq<RawEvent>,
    Option<Seq<char>>,
)
    decreases queue.len(),
{
    if queue.len() == 0 {
        (typing, queue, None)
    } else {
        let (next, sentence) = after_event(typing, queue[0]);
        match sentence {
            Some(s) => (next, queue.drop_first(), Some(s)),
            None => drained(next, queue.drop_first()),
        }
    }
}

/// Goes on with the events in the queue: the next sentence is sent, and when all the events
/// have been looked at, the next round begins.
pub open spec fn go_on(m: SessionModel) -> (SessionModel, AskModel) {
    let (typing, queue, sentence) = drained(m.typing, m.queue);
    (
        SessionModel { typing, queue, ..m },
        match sentence {
            Some(s) => AskModel::Send(s),
            None => AskModel::Check,
        },
    )
}

/// The session goes on if all went well, and fails if not.
pub open spec fn if_well(well: bool, ask: AskModel, error: BridgeErrorModel) -> AskModel {
    if well {
        ask
    } else {
        AskModel::Failed(error)
    }
}

/// The session goes on while a child runs; when one has exited, or cannot be looked at, both
/// are stopped.
pub open spec fn while_running(status: ChildStatus, ask: AskModel) -> AskModel {
    if status == ChildStatus::Running {
        ask
    } else {
        AskModel::StopChaplin
    }
}

/// The session deals with a device from here on, which is a new one or is not. Nothing is known
/// of it yet.
pub open spec fn with_device(m: SessionModel, device: Seq<u8>, found: bool) -> SessionModel {
    SessionModel { device, found, virtual_keyboard: false, ..m }
}

/// What the session keeps in mind after an answer, and what it asks for next.
pub open spec fn session_next(m: SessionModel, answer: Answer) -> (SessionModel, AskModel) {
    match answer {
        Answer::AccessListed(None) => (m, AskModel::Failed(BridgeErrorModel::AccessListing)),
        Answer::AccessListed(Some(devices)) => if devices@.len() == 0 {
            (m, AskModel::Failed(BridgeErrorModel::NoDevices))
        } else {
            (with_device(m, devices@[0], false), AskModel::OpenForAccess(devices@[0]))
        },
        Answer::AccessOpened(opened) => (
            m,
            if_well(
                opened,
                AskModel::FindChaplin(CHAPLIN_SCRIPT@),
                BridgeErrorModel::NoAccess(m.device),
            ),
        ),
        Answer::ChaplinFound(found) => (
            m,
            if_well(
                found,
                AskModel::FindScreenClick(SCREEN_CLICK_BIN@),
                BridgeErrorModel::ChaplinMissing,
            ),
        ),
        Answer::ScreenClickFound(found) => (
            m,
            if_well(found, AskModel::ListExisting, BridgeErrorModel::ScreenClickMissing),
        ),
        Answer::ExistingListed(None) => (m, AskModel::Failed(BridgeErrorModel::Listing)),
        Answer::ExistingListed(Some(devices)) => (
            SessionModel { existing: devices@, ..m },
            AskModel::SpawnChaplin(chaplin_start()),
        ),
        Answer::ChaplinSpawned(spawned) => (
            m,
            if_well(
                spawned,
                AskModel::AwaitDevice { existing: m.existing, timeout: WAIT_NANOS },
                BridgeErrorModel::SpawningChaplin,
            ),
        ),
        Answer::DeviceAwaited(WatchEnd::Failed) => (
            m,
            AskModel::Failed(BridgeErrorModel::Waiting),
        ),
        Answer::DeviceAwaited(WatchEnd::Found(device)) => (
            with_device(m, device@, true),
            AskModel::SpawnScreenClick(screen_click_start()),
        ),
        Answer::DeviceAwaited(WatchEnd::NotFound) => (m, AskModel::CheckAfterWait),
        Answer::CheckedAfterWait { shutdown, chaplin } => (
            m,
            if shutdown {
                AskModel::StopChaplin
            } else {
                while_running(chaplin, AskModel::ListAfterWait)
            },
        ),
        Answer::ListedAfterWait(None) => (m, AskModel::Failed(BridgeErrorModel::Listing)),
        Answer::ListedAfterWait(Some(devices)) => (
            match first_new(devices@, m.existing) {
                Some(device) => with_device(m, device, true),
                None => with_device(m, m.device, false),
            },
            AskModel::SpawnScreenClick(screen_click_start()),
        ),
        Answer::ScreenClickSpawned(spawned) => (
            SessionModel { clicking: m.clicking || spawned, ..m },
            if_well(spawned, AskModel::TakeStdin, BridgeErrorModel::SpawningScreenClick),
        ),
        Answer::StdinTaken(taken) => (
            m,
            if_well(
                taken,
                if m.found {
                    AskModel::Settle(SETTLE_MS)
                } else {
                    AskModel::RunManual
                },
                BridgeErrorModel::TakingStdin,
            ),
        ),
        Answer::Settled => (m, AskModel::ReadName(m.device)),
        Answer::NameRead(Probe::Unopened) => (m, AskModel::RunManual),
        Answer::NameRead(Probe::Opened(_)) => (m, AskModel::ProbeKeyboard(m.device)),
        Answer::KeyboardProbed(probe) => (
            SessionModel { virtual_keyboard: probed_virtual(probe), ..m },
            if probed_virtual(probe) {
                AskModel::OpenForReading(m.device)
            } else {
                AskModel::RunManual
            },
        ),
        Answer::OpenedForReading(opened) => (
            m,
            if_well(opened, AskModel::SetNonBlocking, BridgeErrorModel::Opening(m.device)),
        ),
        Answer::FlagsSet(FlagsOutcome::GetFailed) => (
            m,
            AskModel::Failed(BridgeErrorModel::GettingFlags),
        ),
        Answer::FlagsSet(FlagsOutcome::SetFailed) => (
            m,
            AskModel::Failed(BridgeErrorModel::SettingFlags),
        ),
        Answer::FlagsSet(FlagsOutcome::NonBlocking) => (
            SessionModel { bridging: true, ..m },
            AskModel::Check,
        ),
        Answer::Checked(shutdown) => (
            m,
            if shutdown {
                AskModel::StopChaplin
            } else {
                AskModel::PollChaplin
            },
        ),
        Answer::ChaplinPolled(status) => (m, while_running(status, AskModel::PollScreenClick)),
        Answer::ScreenClickPolled(status) => (m, while_running(status, AskModel::Fetch)),
        Answer::Fetched(events) => go_on(SessionModel { queue: m.queue + events@, ..m }),
        Answer::NothingFetched => (m, AskModel::Pause(IDLE_MS)),
        Answer::FetchFailed => (m, AskModel::Pause(RETRY_MS)),
        Answer::Sent(sent) => if sent {
            go_on(m)
        } else {
            (m, AskModel::StopChaplin)
        },
        Answer::Paused => (m, AskModel::Check),
        Answer::ManualEnded => (m, AskModel::StopChaplin),
        Answer::ChaplinStopped => (
            m,
            if m.bridging {
                AskModel::CloseStdin
            } else if m.clicking {
                AskModel::StopScreenClick
            } else {
                AskModel::Done
            },
        ),
        Answer::StdinClosed => (m, AskModel::StopScreenClick),
        Answer::ScreenClickStopped => (m, AskModel::Done),
    }
}

/// What the session keeps in mind when it begins.
pub open spec fn session_start() -> SessionModel {
    SessionModel {
        existing: Seq::empty(),
        device: Seq::empty(),
        found: false,
        virtual_keyboard: false,
        clicking: false,
        bridging: false,
        typing: blank(),
        queue: Seq::empty(),
    }
}

/// A session.
pub struct Session {
    existing: DeviceSet,
    device: Vec<u8>,
    found: bool,
    virtual_keyboard: bool,
    clicking: bool,
    bridging: bool,
    buffer: SentenceBuffer,
    events: Vec<RawEvent>,
    looked_at: usize,
}

impl View for Session {
    type V = SessionModel;

    closed spec fn view(&self) -> SessionModel {
        SessionModel {
            existing: self.existing@,
            device: self.device@,
            found: self.found,
            virtual_keyboard: self.virtual_keyboard,
            clicking: self.clicking,
            bridging: self.bridging,
            typing: self.buffer@,
            queue: self.events@.skip(self.looked_at as int),
        }
    }
}

impl Session {
    /// The text being typed is in order, and no more events were looked at than were read.
    pub closed spec fn wf(&self) -> bool {
        &&& self.buffer.wf()
        &&& self.looked_at <= self.events.len()
    }

    /// A session that begins, and what it asks for first.
    pub fn start() -> (r: (Session, Ask))
        ensures
            r.0.wf(),
            (r.0@, r.1@) == (session_start(), AskModel::ListForAccess),
    {
        let session = Session {
            existing: DeviceSet::new(),
            device: Vec::new(),
            found: false,
            virtual_keyboard: false,
            clicking: false,
            bridging: false,
            buffer: SentenceBuffer::new(),
            events: Vec::new(),
            looked_at: 0,
        };
        assert(session@.queue == Seq::<RawEvent>::empty());
        (session, Ask::ListForAccess)
    }

    /// Takes in an answer, and tells what to do next.
    pub fn run(&mut self, answer: Answer) -> (r: Ask)
        requires
            old(self).wf(),
        ensures
            final(self).wf(),
            (final(self)@, r@) == session_next(old(self)@, answer),
    {
        match answer {
            Answer::AccessListed(None) => Ask::Failed(BridgeError::AccessListing),
            Answer::AccessListed(Some(devices)) => match devices.first() {
                None => Ask::Failed(BridgeError::NoDevices),
                Some(device) => {
                    assert(device.deep_view() == device@);
                    self.deal_with(device, false);
                    Ask::OpenForAccess(self.device())
                },
            },
            Answer::AccessOpened(opened) => if opened {
                Ask::FindChaplin(CHAPLIN_SCRIPT.to_string())
            } else {
                Ask::Failed(BridgeError::NoAccess(self.device()))
            },
            Answer::ChaplinFound(found) => if found {
                Ask::FindScreenClick(SCREEN_CLICK_BIN.to_string())
            } else {
                Ask::Failed(BridgeError::ChaplinMissing)
            },
            Answer::ScreenClickFound(found) => if found {
                Ask::ListExisting
            } else {
                Ask::Failed(BridgeError::ScreenClickMissing)
            },
            Answer::ExistingListed(None) => Ask::Failed(BridgeError::Listing),
            Answer::ExistingListed(Some(devices)) => {
                self.existing = devices;
                Ask::SpawnChaplin(chaplin_launch())
            },
            Answer::ChaplinSpawned(spawned) => if spawned {
                Ask::AwaitDevice { existing: self.existing.copy(), timeout: WAIT_NANOS }
            } else {
                Ask::Failed(BridgeError::SpawningChaplin)
            },
            Answer::DeviceAwaited(WatchEnd::Failed) => Ask::Failed(BridgeError::Waiting),
            Answer::DeviceAwaited(WatchEnd::Found(device)) => {
                self.deal_with(device, true);
                Ask::SpawnScreenClick(screen_click_launch())
            },
            Answer::DeviceAwaited(WatchEnd::NotFound) => Ask::CheckAfterWait,
            Answer::CheckedAfterWait { shutdown, chaplin } => if shutdown || chaplin
                != ChildStatus::Running {
                Ask::StopChaplin
            } else {
                Ask::ListAfterWait
            },
            Answer::ListedAfterWait(None) => Ask::Failed(BridgeError::Listing),
            Answer::ListedAfterWait(Some(devices)) => {
                match devices.first_not_in(&self.existing) {
                    Some(device) => {
                        assert(device.deep_view() == device@);
                        self.deal_with(device, true);
                    },
                    None => {
                        self.found = false;
                        self.virtual_keyboard = false;
                    },
                }
                Ask::SpawnScreenClick(screen_click_launch())
            },
            Answer::ScreenClickSpawned(spawned) => if spawned {
                self.clicking = true;
                Ask::TakeStdin
            } else {
                Ask::Failed(BridgeError::SpawningScreenClick)
            },
            Answer::StdinTaken(taken) => if !taken {
                Ask::Failed(BridgeError::TakingStdin)
            } else if self.found {
                Ask::Settle(SETTLE_MS)
            } else {
                Ask::RunManual
            },
            Answer::Settled => Ask::ReadName(self.device()),
            Answer::NameRead(Probe::Unopened) => Ask::RunManual,
            Answer::NameRead(Probe::Opened(_)) => Ask::ProbeKeyboard(self.device()),
            Answer::KeyboardProbed(probe) => {
                self.virtual_keyboard = is_virtual_keyboard(&probe);
                if self.virtual_keyboard {
                    Ask::OpenForReading(self.device())
                } else {
                    Ask::RunManual
                }
            },
            Answer::OpenedForReading(opened) => if opened {
                Ask::SetNonBlocking
            } else {
                Ask::Failed(BridgeError::Opening(self.device()))
            },
            Answer::FlagsSet(FlagsOutcome::GetFailed) => Ask::Failed(BridgeError::GettingFlags),
            Answer::FlagsSet(FlagsOutcome::SetFailed) => Ask::Failed(BridgeError::SettingFlags),
            Answer::FlagsSet(FlagsOutcome::NonBlocking) => {
                self.bridging = true;
                Ask::Check
            },
            Answer::Checked(shutdown) => if shutdown {
                Ask::StopChaplin
            } else {
                Ask::PollChaplin
            },
            Answer::ChaplinPolled(status) => if status == ChildStatus::Running {
                Ask::PollScreenClick
            } else {
                Ask::StopChaplin
            },
            Answer::ScreenClickPolled(status) => if status == ChildStatus::Running {
                Ask::Fetch
            } else {
                Ask::StopChaplin
            },
            Answer::Fetched(events) => {
                self.enqueue(events);
                self.go_on()
            },
            Answer::NothingFetched => Ask::Pause(IDLE_MS),
            Answer::FetchFailed => Ask::Pause(RETRY_MS),
            Answer::Sent(sent) => if sent {
                self.go_on()
            } else {
                Ask::StopChaplin
            },
            Answer::Paused => Ask::Check,
            Answer::ManualEnded => Ask::StopChaplin,
            Answer::ChaplinStopped => if self.bridging {
                Ask::CloseStdin
            } else if self.clicking {
                Ask::StopScreenClick
            } else {
                Ask::Done
            },
            Answer::StdinClosed => Ask::StopScreenClick,
            Answer::ScreenClickStopped => Ask::Done,
        }
    }

    fn deal_with(&mut self, device: Vec<u8>, found: bool)
        requires
            old(self).wf(),
        ensures
            final(self).wf(),
            final(self)@ == with_device(old(self)@, device@, found),
    {
        self.device = device;
        self.found = found;
        self.virtual_keyboard = false;
    }

    fn device(&self) -> (r: Vec<u8>)
        ensures
            r@ == self@.device,
    {
        let r: Vec<u8> = self.device.clone();
        assert(r@ == self.device@);
        r
    }

    fn enqueue(&mut self, events: Vec<RawEvent>)
        requires
            old(self).wf(),
        ensures
            final(self).wf(),
            final(self)@ == (SessionModel { queue: old(self)@.queue + events@, ..old(self)@ }),
    {
        if self.looked_at == self.events.len() {
            self.events = events;
            self.looked_at = 0;
        } else {
            let mut events: Vec<RawEvent> = events;
            self.events.append(&mut events);
        }
        assert(self@.queue == old(self)@.queue + events@);
    }

    fn go_on(&mut self) -> (r: Ask)
        requires
            old(self).wf(),
        ensures
            final(self).wf(),
            (final(self)@, r@) == go_on(old(self)@),
    {
        while self.looked_at < self.events.len()
            invariant
                self.wf(),
                go_on(self@) == go_on(old(self)@),
            decreases self.events.len() - self.looked_at,
        {
            let event: RawEvent = self.events[self.looked_at];
            assert(self@.queue[0] == event);
            assert(self.events@.skip(self.looked_at + 1) == self@.queue.drop_first());
            self.looked_at = self.looked_at + 1;
            if let Some(sentence) = self.buffer.event(event) {
                return Ask::Send(sentence);
            }
        }
        Ask::Check
    }
}

} // verus!
