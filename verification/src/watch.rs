//! Waiting for a device that was not there before.

use crate::children::ChildStatus;
use crate::devices::{
    first_new, law_first_new, name_text, new_device, text_of_name, DeviceSet,
};
use vstd::prelude::*;
use vstd::utf8::encode_utf8;

verus! {

/// How long to pause when no file was created, in milliseconds.
pub const WATCH_PAUSE_MS: u64 = 200;

/// What the waiting needs done next.
pub enum WatchAsk {
    /// Look whether a shutdown was asked for, at Chaplin, and at the clock.
    Check,
    /// Read which files were created.
    Read,
    /// Pause for so many milliseconds.
    Pause(u64),
    /// The waiting is over.
    Over(WatchEnd),
}

/// How the waiting ended.
pub enum WatchEnd {
    /// With a new device, of this name.
    Found(Vec<u8>),
    /// With none: a shutdown was asked for, Chaplin is gone, or the time is up.
    NotFound,
    /// With an error.
    Failed,
}

/// What came of what was asked.
pub enum WatchAnswer {
    /// The devices that are there, listed once the creation of files is watched.
    Listed(DeviceSet),
    /// The devices could not be listed.
    ListFailed,
    /// Whether a shutdown was asked for, what a look at Chaplin shows, and the nanoseconds since
    /// the waiting began.
    Checked { shutdown: bool, chaplin: ChildStatus, elapsed: u128 },
    /// Files were created; each has a name, unless it is the directory itself.
    Created(Vec<Option<Vec<u8>>>),
    /// No file was created.
    Nothing,
    /// The created files could not be read.
    ReadFailed,
    /// The pause is over.
    Paused,
}

/// `WatchEnd`, with the bytes of a name as a sequence.
pub enum WatchEndModel {
    Found(Seq<u8>),
    NotFound,
    Failed,
}

/// `WatchAsk`, with the bytes of a name as a sequence.
pub enum WatchAskModel {
    Check,
    Read,
    Pause(u64),
    Over(WatchEndModel),
}

impl View for WatchEnd {
    type V = WatchEndModel;

    open spec fn view(&self) -> WatchEndModel {
        match self {
            WatchEnd::Found(name) => WatchEndModel::Found(name@),
            WatchEnd::NotFound => WatchEndModel::NotFound,
            WatchEnd::Failed => WatchEndModel::Failed,
        }
    }
}

impl View for WatchAsk {
    type V = WatchAskModel;

    open spec fn view(&self) -> WatchAskModel {
        match self {
            WatchAsk::Check => WatchAskModel::Check,
            WatchAsk::Read => WatchAskModel::Read,
            WatchAsk::Pause(millis) => WatchAskModel::Pause(*millis),
            WatchAsk::Over(end) => WatchAskModel::Over(end@),
        }
    }
}

/// The waiting goes on with a check, unless a device was found.
pub open spec fn found_or_check(found: Option<Seq<u8>>) -> WatchAskModel {
    match found {
        Some(name) => WatchAskModel::Over(WatchEndModel::Found(name)),
        None => WatchAskModel::Check,
    }
}

/// The first new device among created files.
pub open spec fn first_created(
    created: Seq<Option<Seq<u8>>>,
    existing: Seq<Seq<u8>>,
) -> Option<Seq<u8>>
    decreases created.len(),
{
    if created.len() == 0 {
        None
    } else {
        match created_device(created[0], existing) {
            Some(name) => Some(name),
            None => first_created(created.drop_first(), existing),
        }
    }
}

/// The new device that a created file is, if it is one.
pub open spec fn created_device(
    created: Option<Seq<u8>>,
    existing: Seq<Seq<u8>>,
) -> Option<Seq<u8>> {
    match created {
        Some(name) => new_device(name_text(name), existing),
        None => None,
    }
}

/// What the waiting needs done after each answer.
pub open spec fn watch_next(
    existing: Seq<Seq<u8>>,
    timeout: u128,
    answer: WatchAnswer,
) -> WatchAskModel {
    match answer {
        WatchAnswer::Listed(current) => found_or_check(first_new(current@, existing)),
        WatchAnswer::ListFailed => WatchAskModel::Over(WatchEndModel::Failed),
        WatchAnswer::Checked { shutdown, chaplin, elapsed } => if shutdown || chaplin
            != ChildStatus::Running || elapsed > timeout {
            WatchAskModel::Over(WatchEndModel::NotFound)
        } else {
            WatchAskModel::Read
        },
        WatchAnswer::Created(created) => found_or_check(
            first_created(created.deep_view(), existing),
        ),
        WatchAnswer::Nothing => WatchAskModel::Pause(WATCH_PAUSE_MS),
        WatchAnswer::ReadFailed => WatchAskModel::Over(WatchEndModel::Failed),
        WatchAnswer::Paused => WatchAskModel::Check,
    }
}

/// Tells what the waiting for a device beyond the existing ones needs done next. The timeout
/// is in nanoseconds. The waiting begins with the answer `Listed`, so that a device is not
/// missed that appeared before the creation of files was watched.
pub fn wait_for_new_device(existing: &DeviceSet, timeout: u128, answer: &WatchAnswer) -> (r:
    WatchAsk)
    ensures
        r@ == watch_next(existing@, timeout, *answer),
{
    match answer {
        WatchAnswer::Listed(current) => ask_with(current.first_not_in(existing)),
        WatchAnswer::ListFailed => WatchAsk::Over(WatchEnd::Failed),
        WatchAnswer::Checked { shutdown, chaplin, elapsed } => {
            if *shutdown || *chaplin != ChildStatus::Running || *elapsed > timeout {
                WatchAsk::Over(WatchEnd::NotFound)
            } else {
                WatchAsk::Read
            }
        },
        WatchAnswer::Created(created) => ask_with(find_created(created, existing)),
        WatchAnswer::Nothing => WatchAsk::Pause(WATCH_PAUSE_MS),
        WatchAnswer::ReadFailed => WatchAsk::Over(WatchEnd::Failed),
        WatchAnswer::Paused => WatchAsk::Check,
    }
}

fn ask_with(found: Option<Vec<u8>>) -> (r: WatchAsk)
    ensures
        r@ == found_or_check(found.deep_view()),
{
    match found {
        Some(name) => {
            assert(name.deep_view() == name@);
            WatchAsk::Over(WatchEnd::Found(name))
        },
        None => WatchAsk::Check,
    }
}

/// The first new device among created files.
pub fn find_created(created: &Vec<Option<Vec<u8>>>, existing: &DeviceSet) -> (r: Option<Vec<u8>>)
    ensures
        r.deep_view() == first_created(created.deep_view(), existing@),
{
    let mut i: usize = 0;
    let ghost all = created.deep_view();
    assert(all.skip(0) == all);
    while i < created.len()
        invariant
            all == created.deep_view(),
            i <= created.len(),
            first_created(all, existing@) == first_created(all.skip(i as int), existing@),
        decreases created.len() - i,
    {
        assert(all.skip(i as int).drop_first() == all.skip(i + 1));
        if let Some(name) = &created[i] {
            assert(name.deep_view() == name@);
            let text: String = text_of_name(name);
            let found: Option<Vec<u8>> = existing.new_device(text.as_str());
            if found.is_some() {
                return found;
            }
        }
        i = i + 1;
    }
    None
}

/// What the waiting finds was not there before.
pub proof fn law_found_is_new(existing: Seq<Seq<u8>>, timeout: u128, answer: WatchAnswer)
    ensures
        watch_next(existing, timeout, answer) matches WatchAskModel::Over(
            WatchEndModel::Found(name),
        ) ==> !existing.contains(name),
{
    match answer {
        WatchAnswer::Listed(current) => {
            law_first_new(current@, existing);
        },
        WatchAnswer::Created(created) => {
            law_first_created(created.deep_view(), existing);
        },
        _ => {},
    }
}

/// Among created files, the first that is a new device is found, and one is found if there is
/// any.
pub proof fn law_first_created(created: Seq<Option<Seq<u8>>>, existing: Seq<Seq<u8>>)
    ensures
        first_created(created, existing) matches Some(name) ==> !existing.contains(name) && exists|
            i: int,
        |
            0 <= i < created.len() && #[trigger] created_device(created[i], existing) == Some(name)
                && forall|k: int|
                0 <= k < i ==> #[trigger] created_device(created[k], existing) is None,
        first_created(created, existing) is None ==> forall|i: int|
            0 <= i < created.len() ==> #[trigger] created_device(created[i], existing) is None,
    decreases created.len(),
{
    if created.len() > 0 {
        let rest = created.drop_first();
        law_first_created(rest, existing);
        match created_device(created[0], existing) {
            Some(name) => {},
            None => {
                assert forall|i: int| 0 <= i < created.len() implies created_device(
                    #[trigger] created[i],
                    existing,
                ) == (if i == 0 {
                    None
                } else {
                    created_device(rest[i - 1], existing)
                }) by {}
                if let Some(name) = first_created(rest, existing) {
                    let i = choose|i: int|
                        0 <= i < rest.len() && #[trigger] created_device(rest[i], existing) == Some(
                            name,
                        ) && forall|k: int|
                            0 <= k < i ==> #[trigger] created_device(rest[k], existing) is None;
                    assert(created_device(created[i + 1], existing) == Some(name));
                }
            },
        }
    }
}

/// The waiting ends without a device only at a check: for a shutdown, because Chaplin is gone,
/// or when more than the timeout has gone by. And it always ends then.
pub proof fn law_gives_up(existing: Seq<Seq<u8>>, timeout: u128, answer: WatchAnswer)
    ensures
        watch_next(existing, timeout, answer) == WatchAskModel::Over(WatchEndModel::NotFound)
            <==> (answer matches WatchAnswer::Checked { shutdown, chaplin, elapsed } && (shutdown
            || chaplin != ChildStatus::Running || elapsed > timeout)),
{
}

/// Whether a created file is a new device: its name, as text, begins with "event", and no existing
/// device is named by that text.
pub open spec fn is_new_file(created: Option<Seq<u8>>, existing: Seq<Seq<u8>>) -> bool {
    created matches Some(name) && "event"@.is_prefix_of(name_text(name)) && !existing.contains(
        encode_utf8(name_text(name)),
    )
}

/// The waiting goes on looking for as long as it lasts: at every check before the time is up, with
/// no shutdown asked for and Chaplin running, it has the created files read, and at no other time.
pub proof fn law_reads_while_it_lasts(existing: Seq<Seq<u8>>, timeout: u128, answer: WatchAnswer)
    ensures
        watch_next(existing, timeout, answer) is Read <==> (answer matches WatchAnswer::Checked {
            shutdown,
            chaplin,
            elapsed,
        } && !shutdown && chaplin == ChildStatus::Running && elapsed <= timeout),
{
}

/// The waiting fails exactly if the devices, or the created files, could not be read. It pauses
/// exactly if no file was created, for 200 milliseconds. And it comes to its next check exactly
/// when a pause is over, or what it was shown holds no new device.
pub proof fn law_watch_asks(existing: Seq<Seq<u8>>, timeout: u128, answer: WatchAnswer)
    ensures
        watch_next(existing, timeout, answer) == WatchAskModel::Over(WatchEndModel::Failed)
            <==> answer is ListFailed || answer is ReadFailed,
        watch_next(existing, timeout, answer) is Pause <==> answer is Nothing,
        watch_next(existing, timeout, answer) matches WatchAskModel::Pause(millis) ==> millis
            == 200,
        watch_next(existing, timeout, answer) is Check <==> {
            ||| answer is Paused
            ||| answer matches WatchAnswer::Listed(current) && forall|name: Seq<u8>| #[trigger]
                current@.contains(name) ==> existing.contains(name)
            ||| answer matches WatchAnswer::Created(created) && forall|i: int|
                0 <= i < created.deep_view().len() ==> !is_new_file(
                    #[trigger] created.deep_view()[i],
                    existing,
                )
        },
{
    match answer {
        WatchAnswer::Listed(current) => {
            law_first_new(current@, existing);
        },
        WatchAnswer::Created(created) => {
            lemma_first_created(created.deep_view(), existing);
        },
        _ => {},
    }
}

/// What is found among created files is the first of them that is a new device, under its name as
/// text, and one is found whenever there is one.
pub proof fn law_finds_what_is_created(
    existing: Seq<Seq<u8>>,
    timeout: u128,
    created: Vec<Option<Vec<u8>>>,
    at: int,
)
    requires
        0 <= at < created.deep_view().len(),
        is_new_file(created.deep_view()[at], existing),
        forall|k: int|
            0 <= k < at ==> !is_new_file(#[trigger] created.deep_view()[k], existing),
    ensures
        watch_next(existing, timeout, WatchAnswer::Created(created)) == WatchAskModel::Over(
            WatchEndModel::Found(encode_utf8(name_text(created.deep_view()[at]->0))),
        ),
{
    lemma_first_created(created.deep_view(), existing);
}

/// What is found among listed devices is one of them, and was not there before; and one is found
/// whenever there is one.
pub proof fn law_finds_what_is_listed(existing: Seq<Seq<u8>>, timeout: u128, current: DeviceSet)
    ensures
        (exists|name: Seq<u8>| #[trigger] current@.contains(name) && !existing.contains(name))
            <==> (exists|name: Seq<u8>| #[trigger]
            current@.contains(name) && !existing.contains(name) && watch_next(
                existing,
                timeout,
                WatchAnswer::Listed(current),
            ) == WatchAskModel::Over(WatchEndModel::Found(name))),
{
    law_first_new(current@, existing);
    if exists|name: Seq<u8>| #[trigger] current@.contains(name) && !existing.contains(name) {
        let name = first_new(current@, existing)->0;
        assert(current@.contains(name));
    }
}

/// A new device that is created at any time of the waiting, up to its end, is found by the next
/// reading: from any check in time, with no shutdown asked for and Chaplin running, the waiting
/// reads the created files, and ends with a device exactly if one of them is new.
pub proof fn law_waiting_keeps_looking(
    existing: Seq<Seq<u8>>,
    timeout: u128,
    answers: Seq<WatchAnswer>,
    elapsed: u128,
    created: Vec<Option<Vec<u8>>>,
)
    requires
        is_waiting(existing, timeout, answers),
        watch_next(existing, timeout, answers.last()) is Check,
        elapsed <= timeout,
    ensures
        ({
            let checked = WatchAnswer::Checked {
                shutdown: false,
                chaplin: ChildStatus::Running,
                elapsed,
            };
            let more = answers + seq![checked, WatchAnswer::Created(created)];
            let found = watch_next(existing, timeout, more.last()) matches WatchAskModel::Over(end)
                && end is Found;
            &&& is_waiting(existing, timeout, more)
            &&& found <==> exists|i: int|
                0 <= i < created.deep_view().len() && is_new_file(
                    #[trigger] created.deep_view()[i],
                    existing,
                )
            &&& !found ==> watch_next(existing, timeout, more.last()) is Check
        }),
{
    let checked = WatchAnswer::Checked { shutdown: false, chaplin: ChildStatus::Running, elapsed };
    let more = answers + seq![checked, WatchAnswer::Created(created)];
    assert(more[0] == answers[0]);
    assert forall|i: int, j: int| 0 <= i && j == i + 1 && j < more.len() implies is_watch_answer(
        watch_next(existing, timeout, #[trigger] more[i]),
        #[trigger] more[j],
    ) by {
        if j < answers.len() {
            assert(more[i] == answers[i] && more[j] == answers[j]);
        } else if j == answers.len() {
            assert(more[i] == answers.last());
        }
    }
    lemma_first_created(created.deep_view(), existing);
}

/// A waiting that finds nothing pauses and comes to its next check.
pub proof fn law_waiting_goes_on(
    existing: Seq<Seq<u8>>,
    timeout: u128,
    answers: Seq<WatchAnswer>,
)
    requires
        is_waiting(existing, timeout, answers),
        watch_next(existing, timeout, answers.last()) is Read,
    ensures
        ({
            let more = answers + seq![WatchAnswer::Nothing, WatchAnswer::Paused];
            &&& is_waiting(existing, timeout, more)
            &&& watch_next(existing, timeout, more.last()) is Check
        }),
{
    let more = answers + seq![WatchAnswer::Nothing, WatchAnswer::Paused];
    assert(more[0] == answers[0]);
    assert forall|i: int, j: int| 0 <= i && j == i + 1 && j < more.len() implies is_watch_answer(
        watch_next(existing, timeout, #[trigger] more[i]),
        #[trigger] more[j],
    ) by {
        if j < answers.len() {
            assert(more[i] == answers[i] && more[j] == answers[j]);
        } else if j == answers.len() {
            assert(more[i] == answers.last());
        }
    }
}

proof fn lemma_first_created(created: Seq<Option<Seq<u8>>>, existing: Seq<Seq<u8>>)
    ensures
        first_created(created, existing) is None <==> forall|i: int|
            0 <= i < created.len() ==> !is_new_file(#[trigger] created[i], existing),
        forall|at: int|
            #![trigger created[at]]
            0 <= at < created.len() && is_new_file(created[at], existing) && (forall|k: int|
                0 <= k < at ==> !is_new_file(#[trigger] created[k], existing))
                ==> first_created(created, existing) == Some(
                encode_utf8(name_text(created[at]->0)),
            ),
    decreases created.len(),
{
    if created.len() > 0 {
        let rest = created.drop_first();
        lemma_first_created(rest, existing);
        if is_new_file(created[0], existing) {
            assert(first_created(created, existing) is Some);
        } else {
            assert(created_device(created[0], existing) is None);
            assert forall|i: int| 0 <= i < rest.len() implies #[trigger] rest[i] == created[i
                + 1] by {}
            if first_created(rest, existing) is None {
                assert forall|i: int| 0 <= i < created.len() implies !is_new_file(
                    #[trigger] created[i],
                    existing,
                ) by {
                    if i > 0 {
                        assert(rest[i - 1] == created[i]);
                    }
                }
            } else {
                let i = choose|i: int|
                    0 <= i < rest.len() && is_new_file(#[trigger] rest[i], existing);
                assert(is_new_file(created[i + 1], existing));
            }
            assert forall|at: int|
                #![trigger created[at]]
                0 <= at < created.len() && is_new_file(created[at], existing) && (forall|k: int|
                    0 <= k < at ==> !is_new_file(
                        #[trigger] created[k],
                        existing,
                    )) implies first_created(created, existing) == Some(
                encode_utf8(name_text(created[at]->0)),
            ) by {
                assert(at > 0);
                assert(rest[at - 1] == created[at]);
                assert forall|k: int| 0 <= k < at - 1 implies !is_new_file(
                    #[trigger] rest[k],
                    existing,
                ) by {
                    assert(rest[k] == created[k + 1]);
                }
            }
        }
    }
}

/// Whether an answer is one to what was asked.
pub open spec fn is_watch_answer(ask: WatchAskModel, answer: WatchAnswer) -> bool {
    match answer {
        WatchAnswer::Listed(_) => false,
        WatchAnswer::ListFailed => false,
        WatchAnswer::Checked { .. } => ask is Check,
        WatchAnswer::Created(_) => ask is Read,
        WatchAnswer::Nothing => ask is Read,
        WatchAnswer::ReadFailed => ask is Read,
        WatchAnswer::Paused => ask is Pause,
    }
}

/// Whether the first of the answers is the listing with which a waiting begins, and each of the
/// others is one to what was asked before it.
pub open spec fn is_waiting(
    existing: Seq<Seq<u8>>,
    timeout: u128,
    answers: Seq<WatchAnswer>,
) -> bool {
    &&& answers.len() > 0
    &&& answers[0] is Listed || answers[0] is ListFailed
    &&& forall|i: int, j: int|
        0 <= i && j == i + 1 && j < answers.len() ==> is_watch_answer(
            watch_next(existing, timeout, #[trigger] answers[i]),
            #[trigger] answers[j],
        )
}

/// Whether an answer shows a new device: one that is listed, or a file that was created.
pub open spec fn shows_new(existing: Seq<Seq<u8>>, answer: WatchAnswer) -> bool {
    match answer {
        WatchAnswer::Listed(current) => exists|name: Seq<u8>| #[trigger]
            current@.contains(name) && !existing.contains(name),
        WatchAnswer::Created(created) => exists|i: int|
            0 <= i < created.deep_view().len() && #[trigger] created_device(
                created.deep_view()[i],
                existing,
            ) is Some,
        _ => false,
    }
}

/// A waiting finds the first new device that it is shown: while it goes on, and when it ends
/// without a device, no answer has shown one; and it ends with a device as soon as one does.
pub proof fn law_waiting(
    existing: Seq<Seq<u8>>,
    timeout: u128,
    answers: Seq<WatchAnswer>,
    at: int,
)
    requires
        is_waiting(existing, timeout, answers),
        0 <= at < answers.len(),
    ensures
        ({
            let ask = watch_next(existing, timeout, answers[at]);
            let found = ask matches WatchAskModel::Over(end) && end is Found;
            &&& shows_new(existing, answers[at]) <==> found
            &&& found ==> at == answers.len() - 1
        }),
        watch_next(existing, timeout, answers.last()) == WatchAskModel::Over(
            WatchEndModel::NotFound,
        ) ==> !shows_new(existing, answers[at]),
{
    match answers[at] {
        WatchAnswer::Listed(current) => {
            law_first_new(current@, existing);
        },
        WatchAnswer::Created(created) => {
            law_first_created(created.deep_view(), existing);
        },
        _ => {},
    }
    if at < answers.len() - 1 {
        let next = answers[at + 1];
        assert(is_watch_answer(watch_next(existing, timeout, answers[at]), next));
    }
}

} // verus!
