//! What every session keeps to, whatever it is answered.

use crate::children::ChildStatus;
use crate::devices::{law_first_new, probed_virtual, DeviceSet, Probe};
use crate::dictation::{
    all_trimmed, cut, is_editing, is_sendable, is_sentence, law_batches, law_dictation,
    law_event_keeps_order, law_idle_events, law_typed_text_leaves, strokes_of_all, text_typed,
    without_idle,
};
use crate::errors::BridgeErrorModel;
use crate::input::RawEvent;
use crate::launch::{chaplin_start, screen_click_start, CHAPLIN_SCRIPT, SCREEN_CLICK_BIN};
use crate::sentences::{after_event, after_events, as_seq, blank, is_open, Typing};
use crate::session::{
    drained, go_on, session_next, session_start, Answer, AskModel, FlagsOutcome, SessionModel,
    SETTLE_MS, WAIT_NANOS,
};
use crate::watch::WatchEnd;
use vstd::prelude::*;

verus! {

/// Whether an answer is one to what was asked. That a device was found which is not among the
/// existing ones is what `wait_for_new_device` sees to.
pub open spec fn is_answer_to(m: SessionModel, ask: AskModel, answer: Answer) -> bool {
    match answer {
        Answer::AccessListed(_) => ask is ListForAccess,
        Answer::AccessOpened(_) => ask is OpenForAccess,
        Answer::ChaplinFound(_) => ask is FindChaplin,
        Answer::ScreenClickFound(_) => ask is FindScreenClick,
        Answer::ExistingListed(_) => ask is ListExisting,
        Answer::ScreenClickSpawned(_) => ask is SpawnScreenClick,
        Answer::StdinTaken(_) => ask is TakeStdin,
        Answer::ChaplinSpawned(_) => ask is SpawnChaplin,
        Answer::DeviceAwaited(end) => ask is AwaitDevice && (end matches WatchEnd::Found(device)
            ==> !m.existing.contains(device@)),
        Answer::CheckedAfterWait { .. } => ask is CheckAfterWait,
        Answer::ListedAfterWait(_) => ask is ListAfterWait,
        Answer::Settled => ask is Settle,
        Answer::NameRead(_) => ask is ReadName,
        Answer::KeyboardProbed(_) => ask is ProbeKeyboard,
        Answer::OpenedForReading(_) => ask is OpenForReading,
        Answer::FlagsSet(_) => ask is SetNonBlocking,
        Answer::Checked(_) => ask is Check,
        Answer::ChaplinPolled(_) => ask is PollChaplin,
        Answer::ScreenClickPolled(_) => ask is PollScreenClick,
        Answer::Fetched(_) => ask is Fetch,
        Answer::NothingFetched => ask is Fetch,
        Answer::FetchFailed => ask is Fetch,
        Answer::Sent(_) => ask is Send,
        Answer::Paused => ask is Pause,
        Answer::ManualEnded => ask is RunManual,
        Answer::ChaplinStopped => ask is StopChaplin,
        Answer::StdinClosed => ask is CloseStdin,
        Answer::ScreenClickStopped => ask is StopScreenClick,
    }
}

/// Where a session stands after some answers, and what it asks for then.
pub open spec fn course(answers: Seq<Answer>) -> (SessionModel, AskModel)
    decreases answers.len(),
{
    if answers.len() == 0 {
        (session_start(), AskModel::ListForAccess)
    } else {
        session_next(course(answers.drop_last()).0, answers.last())
    }
}

/// Whether each of the answers is one to what was asked before it.
pub open spec fn is_course(answers: Seq<Answer>) -> bool
    decreases answers.len(),
{
    answers.len() == 0 || {
        let (m, ask) = course(answers.drop_last());
        is_course(answers.drop_last()) && is_answer_to(m, ask, answers.last())
    }
}

/// What the session asked for after so many of the answers.
pub open spec fn asked(answers: Seq<Answer>, count: int) -> AskModel {
    course(answers.take(count)).1
}

/// All the events that were read.
pub open spec fn fetched(answers: Seq<Answer>) -> Seq<RawEvent>
    decreases answers.len(),
{
    if answers.len() == 0 {
        Seq::empty()
    } else {
        fetched(answers.drop_last()) + match answers.last() {
            Answer::Fetched(events) => events@,
            _ => Seq::empty(),
        }
    }
}

/// The sentence that an ask is about.
pub open spec fn to_send(ask: AskModel) -> Option<Seq<char>> {
    match ask {
        AskModel::Send(sentence) => Some(sentence),
        _ => None,
    }
}

/// All the sentences that the session asked to send.
pub open spec fn sent(answers: Seq<Answer>) -> Seq<Seq<char>>
    decreases answers.len(),
{
    if answers.len() == 0 {
        Seq::empty()
    } else {
        sent(answers.drop_last()) + as_seq(to_send(course(answers).1))
    }
}

/// Whether an ask belongs to a round, up to the reading of events.
pub open spec fn is_round(ask: AskModel) -> bool {
    ask is Check || ask is PollChaplin || ask is PollScreenClick || ask is Fetch || ask is Pause
}

/// Whether an ask comes once a new device was sought, and before it is read.
pub open spec fn is_readying(ask: AskModel) -> bool {
    ask is SpawnScreenClick || ask is TakeStdin || ask is Settle || ask is ReadName
        || ask is ProbeKeyboard || ask is OpenForReading || ask is SetNonBlocking
}

/// Whether an ask comes once both children were started.
pub open spec fn is_clicking(ask: AskModel) -> bool {
    ask is TakeStdin || ask is Settle || ask is ReadName || ask is ProbeKeyboard
        || ask is OpenForReading || ask is SetNonBlocking || ask is RunManual || is_round(ask)
        || ask is Send
}

/// Whether an ask belongs to the stopping of the children.
pub open spec fn is_stopping(ask: AskModel) -> bool {
    ask is StopChaplin || ask is CloseStdin || ask is StopScreenClick || ask is Done
}

/// What holds all along.
pub open spec fn holds_along(m: SessionModel, ask: AskModel) -> bool {
    &&& is_open(m.typing.text)
    &&& is_round(ask) || ask is Send || ask is CloseStdin ==> m.bridging
    &&& m.bridging ==> is_round(ask) || ask is Send || is_stopping(ask)
    &&& m.bridging ==> m.virtual_keyboard && m.found && m.clicking && !m.existing.contains(
        m.device,
    )
    &&& is_clicking(ask) ==> m.clicking
    &&& m.clicking ==> is_clicking(ask) || is_stopping(ask) || ask is Failed
    &&& is_round(ask) || !m.bridging ==> m.queue.len() == 0
    &&& !m.bridging ==> m.typing == blank()
    &&& is_readying(ask) && m.found ==> !m.existing.contains(m.device)
    &&& ask is Settle || ask is ReadName || ask is ProbeKeyboard ==> m.found
    &&& ask is OpenForReading || ask is SetNonBlocking ==> m.found && m.virtual_keyboard
    &&& ask matches AskModel::OpenForAccess(device) ==> device == m.device
    &&& ask matches AskModel::ReadName(device) ==> device == m.device
    &&& ask matches AskModel::ProbeKeyboard(device) ==> device == m.device
    &&& ask matches AskModel::OpenForReading(device) ==> device == m.device
    &&& ask matches AskModel::Send(sentence) ==> is_sendable(sentence)
}

/// In every session: events are read only while the session is bridging, and a round begins
/// only when all the events were looked at; the text being typed never holds a completed
/// sentence; the device whose events are read was not there before Chaplin started, and is a
/// virtual keyboard; and whatever is sent is printable, not empty, without spaces at its ends,
/// and one sentence.
pub proof fn law_holds_along(answers: Seq<Answer>)
    requires
        is_course(answers),
    ensures
        holds_along(course(answers).0, course(answers).1),
    decreases answers.len(),
{
    if answers.len() > 0 {
        let before = answers.drop_last();
        law_holds_along(before);
        let (m, ask) = course(before);
        lemma_holds_on(m, ask, answers.last());
    }
}

/// In every session, the sentences that were sent are those which the events that were read
/// complete, in their order; those that the events in the queue complete are still to come.
pub proof fn law_sends_what_was_typed(answers: Seq<Answer>)
    requires
        is_course(answers),
    ensures
        ({
            let m = course(answers).0;
            let (typing, to_come) = after_events(m.typing, m.queue);
            after_events(blank(), fetched(answers)) == (typing, sent(answers) + to_come)
        }),
    decreases answers.len(),
{
    if answers.len() == 0 {
        assert(sent(answers) + Seq::<Seq<char>>::empty() == Seq::<Seq<char>>::empty());
    } else {
        let before = answers.drop_last();
        law_sends_what_was_typed(before);
        law_holds_along(before);
        let (m, ask) = course(before);
        let (after, next) = course(answers);
        let to_come = after_events(after.typing, after.queue).1;
        match answers.last() {
            Answer::Fetched(events) => {
                assert(m.queue + events@ == events@);
                assert(sent(before) + Seq::<Seq<char>>::empty() == sent(before));
                law_batches(blank(), fetched(before), events@);
                lemma_drained(m.typing, events@);
                assert((sent(before) + as_seq(to_send(next))) + to_come == sent(before) + (as_seq(
                    to_send(next),
                ) + to_come));
            },
            Answer::Sent(true) => {
                lemma_drained(m.typing, m.queue);
                assert(fetched(answers) == fetched(before));
                assert((sent(before) + as_seq(to_send(next))) + to_come == sent(before) + (as_seq(
                    to_send(next),
                ) + to_come));
            },
            _ => {
                assert(fetched(answers) == fetched(before));
                assert(to_send(next) is None);
                assert(sent(answers) == sent(before));
            },
        }
    }
}

/// Whenever a round begins, all the sentences that were completed have been sent.
pub proof fn law_round_begins_with_all_sent(answers: Seq<Answer>)
    requires
        is_course(answers),
        is_round(course(answers).1),
    ensures
        after_events(blank(), fetched(answers)) == (course(answers).0.typing, sent(answers)),
{
    law_sends_what_was_typed(answers);
    law_holds_along(answers);
    assert(sent(answers) + Seq::<Seq<char>>::empty() == sent(answers));
}

/// Sentences that are typed on the captured keyboard one after the other, with a space behind
/// each, are what has been sent when the next round begins: each once, in that order, and
/// without the spaces at its ends. Idle events among those of the typing make no difference.
pub proof fn law_typed_sentences_are_sent(answers: Seq<Answer>, sentences: Seq<Seq<char>>)
    requires
        is_course(answers),
        is_round(course(answers).1),
        forall|i: int| 0 <= i < sentences.len() ==> is_sentence(#[trigger] sentences[i]),
        without_idle(fetched(answers)) == without_idle(strokes_of_all(sentences)),
    ensures
        sent(answers) == all_trimmed(sentences),
{
    law_round_begins_with_all_sent(answers);
    law_idle_events(blank(), fetched(answers));
    law_idle_events(blank(), strokes_of_all(sentences));
    law_dictation(sentences);
}

/// Whatever is typed on the captured keyboard, without Enter and Backspace: when a round begins,
/// the pieces of the text up to the last space that has a mark before it which ends a sentence
/// have been sent, in their order and without the spaces at their ends, and the rest is the text
/// in waiting.
pub proof fn law_typed_text_is_sent(answers: Seq<Answer>)
    requires
        is_course(answers),
        is_round(course(answers).1),
        forall|i: int|
            0 <= i < fetched(answers).len() ==> !is_editing(#[trigger] fetched(answers)[i]),
    ensures
        sent(answers) == all_trimmed(cut(text_typed(fetched(answers))).0),
        course(answers).0.typing.text == cut(text_typed(fetched(answers))).1,
{
    law_round_begins_with_all_sent(answers);
    law_typed_text_leaves(fetched(answers));
}

/// Key events are read from a virtual keyboard only: whenever events are asked for or a sentence
/// is sent, the device was probed, and the probe has shown a virtual keyboard.
pub proof fn law_reads_virtual_keyboard_only(answers: Seq<Answer>)
    requires
        is_course(answers),
        course(answers).1 is Fetch || course(answers).1 is Send,
    ensures
        exists|at: int|
            0 <= at < answers.len() && #[trigger] asked(answers, at) == AskModel::ProbeKeyboard(
                course(answers).0.device,
            ) && (answers[at] matches Answer::KeyboardProbed(probe) && probed_virtual(probe)),
{
    law_holds_along(answers);
    lemma_probed(answers);
}

/// A device that does not look like a virtual keyboard is not read: the session falls back to
/// the manual mode.
pub proof fn law_falls_back_from_other_device(answers: Seq<Answer>, probe: Probe)
    requires
        is_course(answers),
        course(answers).1 is ProbeKeyboard,
    ensures
        course(answers.push(Answer::KeyboardProbed(probe))).1 is RunManual <==> !probed_virtual(
            probe,
        ),
{
    lemma_course_push(answers, Answer::KeyboardProbed(probe));
}

/// When a shutdown is asked for, the session stops Chaplin, closes the standard input of the
/// click daemon, stops the click daemon, and is done.
pub proof fn law_shutdown_stops_all(answers: Seq<Answer>)
    requires
        is_course(answers),
        course(answers).1 is Check,
    ensures
        ({
            let stopping = answers + seq![
                Answer::Checked(true),
                Answer::ChaplinStopped,
                Answer::StdinClosed,
                Answer::ScreenClickStopped,
            ];
            let n = answers.len() as int;
            &&& is_course(stopping)
            &&& asked(stopping, n + 1) is StopChaplin
            &&& asked(stopping, n + 2) is CloseStdin
            &&& asked(stopping, n + 3) is StopScreenClick
            &&& asked(stopping, n + 4) is Done
        }),
{
    law_holds_along(answers);
    let one = answers.push(Answer::Checked(true));
    let two = one.push(Answer::ChaplinStopped);
    let three = two.push(Answer::StdinClosed);
    let four = three.push(Answer::ScreenClickStopped);
    let n = answers.len() as int;
    lemma_course_push(answers, Answer::Checked(true));
    lemma_course_push(one, Answer::ChaplinStopped);
    lemma_course_push(two, Answer::StdinClosed);
    lemma_course_push(three, Answer::ScreenClickStopped);
    let stopping = answers + seq![
        Answer::Checked(true),
        Answer::ChaplinStopped,
        Answer::StdinClosed,
        Answer::ScreenClickStopped,
    ];
    assert(stopping == four);
    assert(stopping.take(n + 1) == one);
    assert(stopping.take(n + 2) == two);
    assert(stopping.take(n + 3) == three);
    assert(stopping.take(n + 4) == four);
}

/// The children are stopped for these reasons and no others: a shutdown was asked for, one of
/// the children is gone, a sentence could not be sent, or the manual mode has ended.
pub proof fn law_reasons_to_stop(answers: Seq<Answer>, answer: Answer)
    requires
        is_course(answers.push(answer)),
    ensures
        course(answers.push(answer)).1 is StopChaplin <==> {
            ||| answer == Answer::Checked(true)
            ||| answer matches Answer::CheckedAfterWait { shutdown, chaplin } && (shutdown
                || chaplin != ChildStatus::Running)
            ||| answer matches Answer::ChaplinPolled(status) && status != ChildStatus::Running
            ||| answer matches Answer::ScreenClickPolled(status) && status != ChildStatus::Running
            ||| answer == Answer::Sent(false)
            ||| answer is ManualEnded
        },
{
    assert(answers.push(answer).drop_last() == answers);
}

/// A round gets to the reading of events whenever no shutdown is asked for and both children run,
/// whatever text is in waiting, and nothing that the session keeps in mind changes on the way.
pub proof fn law_round_reads(answers: Seq<Answer>)
    requires
        is_course(answers),
        course(answers).1 is Check,
    ensures
        ({
            let round = answers + seq![
                Answer::Checked(false),
                Answer::ChaplinPolled(ChildStatus::Running),
                Answer::ScreenClickPolled(ChildStatus::Running),
            ];
            let n = answers.len() as int;
            &&& is_course(round)
            &&& asked(round, n + 1) is PollChaplin
            &&& asked(round, n + 2) is PollScreenClick
            &&& asked(round, n + 3) is Fetch
            &&& course(round).0 == course(answers).0
        }),
{
    let one = answers.push(Answer::Checked(false));
    let two = one.push(Answer::ChaplinPolled(ChildStatus::Running));
    let three = two.push(Answer::ScreenClickPolled(ChildStatus::Running));
    let n = answers.len() as int;
    lemma_course_push(answers, Answer::Checked(false));
    lemma_course_push(one, Answer::ChaplinPolled(ChildStatus::Running));
    lemma_course_push(two, Answer::ScreenClickPolled(ChildStatus::Running));
    let round = answers + seq![
        Answer::Checked(false),
        Answer::ChaplinPolled(ChildStatus::Running),
        Answer::ScreenClickPolled(ChildStatus::Running),
    ];
    assert(round == three);
    assert(round.take(n + 1) == one);
    assert(round.take(n + 2) == two);
    assert(round.take(n + 3) == three);
}

/// Where there are no events, or they could not be read, the session pauses, for 10 milliseconds
/// or for 500, and begins its next round with all that it had in mind.
pub proof fn law_round_pauses(answers: Seq<Answer>, answer: Answer)
    requires
        is_course(answers),
        course(answers).1 is Fetch,
        answer is NothingFetched || answer is FetchFailed,
    ensures
        ({
            let round = answers + seq![answer, Answer::Paused];
            let millis: u64 = if answer is NothingFetched {
                10
            } else {
                500
            };
            &&& is_course(round)
            &&& asked(round, answers.len() as int + 1) == AskModel::Pause(millis)
            &&& course(round) == (course(answers).0, AskModel::Check)
        }),
{
    let one = answers.push(answer);
    lemma_course_push(answers, answer);
    lemma_course_push(one, Answer::Paused);
    let round = answers + seq![answer, Answer::Paused];
    assert(round == one.push(Answer::Paused));
    assert(round.take(answers.len() as int + 1) == one);
}

/// The events that the session has before it once it got an answer: those in the queue, and those
/// that were just read.
pub open spec fn at_hand(m: SessionModel, answer: Answer) -> Seq<RawEvent> {
    m.queue + match answer {
        Answer::Fetched(events) => events@,
        _ => Seq::empty(),
    }
}

/// Once events were read, or a sentence was sent, the next of the sentences that the events at hand
/// complete is sent, and where they complete none, the next round begins.
pub proof fn law_sends_the_next(answers: Seq<Answer>, answer: Answer)
    requires
        answer is Fetched || answer == Answer::Sent(true),
    ensures
        ({
            let m = course(answers).0;
            let sentences = after_events(m.typing, at_hand(m, answer)).1;
            course(answers.push(answer)).1 == if sentences.len() > 0 {
                AskModel::Send(sentences[0])
            } else {
                AskModel::Check
            }
        }),
{
    let m = course(answers).0;
    assert(answers.push(answer).drop_last() == answers);
    assert(m.queue + Seq::<RawEvent>::empty() == m.queue);
    lemma_drained(m.typing, at_hand(m, answer));
}

/// What is asked for in a round is asked for with these reasons and no others: Chaplin is looked at
/// when no shutdown was asked for, the click daemon when Chaplin runs, and events are read when the
/// click daemon runs too. The session pauses only where nothing could be read. A round begins with
/// the look for a shutdown: when the device is ready, when a pause is over, and when all the events
/// were looked at.
pub proof fn law_reasons_in_a_round(answers: Seq<Answer>, answer: Answer)
    ensures
        ({
            let next = course(answers.push(answer)).1;
            &&& next is PollChaplin <==> answer == Answer::Checked(false)
            &&& next is PollScreenClick <==> answer == Answer::ChaplinPolled(ChildStatus::Running)
            &&& next is Fetch <==> answer == Answer::ScreenClickPolled(ChildStatus::Running)
            &&& next is Pause <==> answer is NothingFetched || answer is FetchFailed
            &&& next is Send ==> answer is Fetched || answer == Answer::Sent(true)
            &&& next is Check ==> {
                ||| answer == Answer::FlagsSet(FlagsOutcome::NonBlocking)
                ||| answer is Paused
                ||| answer is Fetched
                ||| answer == Answer::Sent(true)
            }
            &&& answer == Answer::FlagsSet(FlagsOutcome::NonBlocking) || answer is Paused
                ==> next is Check
        }),
{
    assert(answers.push(answer).drop_last() == answers);
}

/// What is asked for in the start of a session is asked for with these reasons and no others: each
/// step follows on the one before it, where that went well.
pub proof fn law_reasons_in_the_start(answers: Seq<Answer>, answer: Answer)
    ensures
        ({
            let next = course(answers.push(answer)).1;
            &&& !(next is ListForAccess)
            &&& next is OpenForAccess <==> (answer matches Answer::AccessListed(Some(devices))
                && devices@.len() > 0)
            &&& next matches AskModel::OpenForAccess(device) ==> (answer matches Answer::AccessListed(
                Some(devices),
            ) && devices@.contains(device))
            &&& next is FindChaplin <==> answer == Answer::AccessOpened(true)
            &&& next is FindScreenClick <==> answer == Answer::ChaplinFound(true)
            &&& next is ListExisting <==> answer == Answer::ScreenClickFound(true)
            &&& next is SpawnChaplin <==> (answer matches Answer::ExistingListed(devices)
                && devices is Some)
            &&& next is AwaitDevice <==> answer == Answer::ChaplinSpawned(true)
            &&& next is CheckAfterWait <==> answer == Answer::DeviceAwaited(WatchEnd::NotFound)
            &&& next is ListAfterWait <==> answer == (Answer::CheckedAfterWait {
                shutdown: false,
                chaplin: ChildStatus::Running,
            })
            &&& next is SpawnScreenClick <==> {
                ||| answer matches Answer::DeviceAwaited(end) && end is Found
                ||| answer matches Answer::ListedAfterWait(devices) && devices is Some
            }
            &&& next is TakeStdin <==> answer == Answer::ScreenClickSpawned(true)
        }),
{
    assert(answers.push(answer).drop_last() == answers);
    if let Answer::AccessListed(Some(devices)) = answer {
        if devices@.len() > 0 {
            assert(devices@.contains(devices@[0]));
        }
    }
}

/// What is asked for on the way from a started click daemon to the reading of events is asked for
/// with these reasons and no others. The manual mode runs exactly if there is no new device, the
/// new device could not be opened, or it does not look like a virtual keyboard.
pub proof fn law_reasons_to_read(answers: Seq<Answer>, answer: Answer)
    ensures
        ({
            let next = course(answers.push(answer)).1;
            let found = course(answers).0.found;
            &&& next is Settle <==> answer == Answer::StdinTaken(true) && found
            &&& next matches AskModel::Settle(millis) ==> millis == 200
            &&& next is ReadName <==> answer is Settled
            &&& next is ProbeKeyboard <==> (answer matches Answer::NameRead(probe)
                && probe is Opened)
            &&& next is OpenForReading <==> (answer matches Answer::KeyboardProbed(probe)
                && probed_virtual(probe))
            &&& next is SetNonBlocking <==> answer == Answer::OpenedForReading(true)
            &&& next is RunManual <==> {
                ||| answer == Answer::StdinTaken(true) && !found
                ||| answer == Answer::NameRead(Probe::Unopened)
                ||| answer matches Answer::KeyboardProbed(probe) && !probed_virtual(probe)
            }
        }),
{
    assert(answers.push(answer).drop_last() == answers);
}

/// A session fails exactly if something that it cannot do without went wrong.
pub proof fn law_reasons_to_fail(answers: Seq<Answer>, answer: Answer)
    ensures
        course(answers.push(answer)).1 is Failed <==> {
            ||| answer matches Answer::AccessListed(devices) && (devices matches Some(found)
                ==> found@.len() == 0)
            ||| answer == Answer::AccessOpened(false)
            ||| answer == Answer::ChaplinFound(false)
            ||| answer == Answer::ScreenClickFound(false)
            ||| answer == Answer::ExistingListed(None)
            ||| answer == Answer::ChaplinSpawned(false)
            ||| answer == Answer::DeviceAwaited(WatchEnd::Failed)
            ||| answer == Answer::ListedAfterWait(None)
            ||| answer == Answer::ScreenClickSpawned(false)
            ||| answer == Answer::StdinTaken(false)
            ||| answer == Answer::OpenedForReading(false)
            ||| answer matches Answer::FlagsSet(outcome) && outcome != FlagsOutcome::NonBlocking
        },
{
    assert(answers.push(answer).drop_last() == answers);
}

/// The error of a session that fails tells what went wrong, and with which device.
pub proof fn law_error_tells_why(answers: Seq<Answer>, answer: Answer)
    requires
        is_course(answers.push(answer)),
    ensures
        course(answers.push(answer)).1 matches AskModel::Failed(error) ==> {
            let ask = course(answers).1;
            match error {
                BridgeErrorModel::AccessListing => answer == Answer::AccessListed(None),
                BridgeErrorModel::NoDevices => answer matches Answer::AccessListed(Some(devices))
                    && devices@.len() == 0,
                BridgeErrorModel::NoAccess(device) => answer == Answer::AccessOpened(false) && ask
                    == AskModel::OpenForAccess(device),
                BridgeErrorModel::ChaplinMissing => ask is FindChaplin,
                BridgeErrorModel::ScreenClickMissing => ask is FindScreenClick,
                BridgeErrorModel::Listing => ask is ListExisting || ask is ListAfterWait,
                BridgeErrorModel::SpawningScreenClick => ask is SpawnScreenClick,
                BridgeErrorModel::TakingStdin => ask is TakeStdin,
                BridgeErrorModel::SpawningChaplin => ask is SpawnChaplin,
                BridgeErrorModel::Waiting => ask is AwaitDevice,
                BridgeErrorModel::Opening(device) => ask == AskModel::OpenForReading(device),
                BridgeErrorModel::GettingFlags => answer == Answer::FlagsSet(
                    FlagsOutcome::GetFailed,
                ),
                BridgeErrorModel::SettingFlags => answer == Answer::FlagsSet(
                    FlagsOutcome::SetFailed,
                ),
            }
        },
{
    assert(answers.push(answer).drop_last() == answers);
    law_holds_along(answers);
}

/// The click daemon is stopped, and its standard input closed, with these reasons and no others,
/// and the session is done when there is nothing left to stop.
pub proof fn law_reasons_to_end(answers: Seq<Answer>, answer: Answer)
    ensures
        ({
            let next = course(answers.push(answer)).1;
            let bridging = answers.contains(Answer::FlagsSet(FlagsOutcome::NonBlocking));
            let clicking = answers.contains(Answer::ScreenClickSpawned(true));
            &&& next is CloseStdin <==> answer is ChaplinStopped && bridging
            &&& next is StopScreenClick <==> {
                ||| answer is StdinClosed
                ||| answer is ChaplinStopped && !bridging && clicking
            }
            &&& next is Done <==> {
                ||| answer is ScreenClickStopped
                ||| answer is ChaplinStopped && !bridging && !clicking
            }
        }),
{
    assert(answers.push(answer).drop_last() == answers);
    law_remembers_starts(answers);
}

/// The session keeps in mind that the click daemon was started from when it was, and that the
/// events of the device are being read from when the device was made ready.
pub proof fn law_remembers_starts(answers: Seq<Answer>)
    ensures
        course(answers).0.bridging <==> answers.contains(
            Answer::FlagsSet(FlagsOutcome::NonBlocking),
        ),
        course(answers).0.clicking <==> answers.contains(Answer::ScreenClickSpawned(true)),
    decreases answers.len(),
{
    if answers.len() > 0 {
        let before = answers.drop_last();
        law_remembers_starts(before);
        lemma_contains(answers, Answer::FlagsSet(FlagsOutcome::NonBlocking));
        lemma_contains(answers, Answer::ScreenClickSpawned(true));
    }
}

proof fn lemma_contains(answers: Seq<Answer>, answer: Answer)
    requires
        answers.len() > 0,
    ensures
        answers.contains(answer) <==> answers.drop_last().contains(answer) || answers.last()
            == answer,
{
    let before = answers.drop_last();
    if before.contains(answer) {
        let i = choose|i: int| 0 <= i < before.len() && before[i] == answer;
        assert(answers[i] == answer);
    }
    if answers.contains(answer) {
        let i = choose|i: int| 0 <= i < answers.len() && answers[i] == answer;
        if i < before.len() {
            assert(before[i] == answer);
        }
    }
    if answers.last() == answer {
        assert(answers[answers.len() - 1] == answer);
    }
}

/// The devices that were listed before Chaplin was started are the ones that the session keeps to.
pub proof fn law_remembers_existing(answers: Seq<Answer>, at: int)
    requires
        is_course(answers),
        0 <= at < answers.len(),
        answers[at] matches Answer::ExistingListed(devices) && devices is Some,
    ensures
        answers[at] matches Answer::ExistingListed(Some(devices)) && course(answers).0.existing
            == devices@,
    decreases answers.len(),
{
    let before = answers.drop_last();
    let n = answers.len() as int;
    if at < n - 1 {
        law_remembers_existing(before, at);
        if answers.last() is ExistingListed {
            lemma_last_answer(answers, at + 1);
            lemma_last_answer(answers, n);
            law_start_goes_one_way(answers, at, n - 1);
        }
    }
}

/// A device that was found is the one that the session turns to: the one that the waiting ended
/// with, or, where it ended without, one that the last look shows and that was not there before.
pub proof fn law_turns_to_found_device(answers: Seq<Answer>, device: Vec<u8>, devices: DeviceSet)
    ensures
        ({
            let m = course(answers.push(Answer::DeviceAwaited(WatchEnd::Found(device)))).0;
            m.found && m.device == device@
        }),
        ({
            let existing = course(answers).0.existing;
            let m = course(answers.push(Answer::ListedAfterWait(Some(devices)))).0;
            &&& m.found <==> exists|name: Seq<u8>| #[trigger]
                devices@.contains(name) && !existing.contains(name)
            &&& m.found ==> devices@.contains(m.device) && !existing.contains(m.device)
        }),
{
    let awaited = Answer::DeviceAwaited(WatchEnd::Found(device));
    let listed = Answer::ListedAfterWait(Some(devices));
    assert(answers.push(awaited).drop_last() == answers);
    assert(answers.push(listed).drop_last() == answers);
    law_first_new(devices@, course(answers).0.existing);
}

/// The answers with which a session gets from the start of the click daemon to the reading of its
/// device.
pub open spec fn ready_answers(name: Option<String>, probe: Probe) -> Seq<Answer> {
    seq![
        Answer::ScreenClickSpawned(true),
        Answer::StdinTaken(true),
        Answer::Settled,
        Answer::NameRead(Probe::Opened(name)),
        Answer::KeyboardProbed(probe),
        Answer::OpenedForReading(true),
        Answer::FlagsSet(FlagsOutcome::NonBlocking),
    ]
}

/// A device that was found, and that a probe shows to be a virtual keyboard, is read: that very
/// device is let settle, looked at, opened and made ready, and then the first round begins, with
/// nothing typed yet.
pub proof fn law_found_keyboard_is_read(
    answers: Seq<Answer>,
    name: Option<String>,
    probe: Probe,
)
    requires
        is_course(answers),
        course(answers).1 is SpawnScreenClick,
        course(answers).0.found,
        probed_virtual(probe),
    ensures
        ({
            let ready = answers + ready_answers(name, probe);
            let device = course(answers).0.device;
            let n = answers.len() as int;
            &&& is_course(ready)
            &&& asked(ready, n + 1) is TakeStdin
            &&& asked(ready, n + 2) == AskModel::Settle(200)
            &&& asked(ready, n + 3) == AskModel::ReadName(device)
            &&& asked(ready, n + 4) == AskModel::ProbeKeyboard(device)
            &&& asked(ready, n + 5) == AskModel::OpenForReading(device)
            &&& asked(ready, n + 6) is SetNonBlocking
            &&& asked(ready, n + 7) is Check
            &&& course(ready).0.typing.text.len() == 0
            &&& !course(ready).0.typing.shift
            &&& course(ready).0.device == device
        }),
{
    law_holds_along(answers);
    let more = ready_answers(name, probe);
    let ready = answers + more;
    let n = answers.len() as int;
    assert(ready.take(n) == answers);
    lemma_course_push(ready.take(n), more[0]);
    assert(ready.take(n + 1) == ready.take(n).push(more[0]));
    lemma_course_push(ready.take(n + 1), more[1]);
    assert(ready.take(n + 2) == ready.take(n + 1).push(more[1]));
    lemma_course_push(ready.take(n + 2), more[2]);
    assert(ready.take(n + 3) == ready.take(n + 2).push(more[2]));
    lemma_course_push(ready.take(n + 3), more[3]);
    assert(ready.take(n + 4) == ready.take(n + 3).push(more[3]));
    lemma_course_push(ready.take(n + 4), more[4]);
    assert(ready.take(n + 5) == ready.take(n + 4).push(more[4]));
    lemma_course_push(ready.take(n + 5), more[5]);
    assert(ready.take(n + 6) == ready.take(n + 5).push(more[5]));
    lemma_course_push(ready.take(n + 6), more[6]);
    assert(ready.take(n + 7) == ready.take(n + 6).push(more[6]));
    assert(ready.take(n + 7) == ready);
}

/// The answers with which a session that stops Chaplin comes to its end.
pub open spec fn stop_answers(m: SessionModel) -> Seq<Answer> {
    if m.bridging {
        seq![Answer::ChaplinStopped, Answer::StdinClosed, Answer::ScreenClickStopped]
    } else if m.clicking {
        seq![Answer::ChaplinStopped, Answer::ScreenClickStopped]
    } else {
        seq![Answer::ChaplinStopped]
    }
}

/// From the stopping of Chaplin on, the session runs through to its end: it stops the click
/// daemon too, if that was started, and closes the standard input of the click daemon before, if
/// it was bridging.
pub proof fn law_stopping_runs_through(answers: Seq<Answer>)
    requires
        is_course(answers),
        course(answers).1 is StopChaplin,
    ensures
        ({
            let m = course(answers).0;
            let stopping = answers + stop_answers(m);
            &&& is_course(stopping)
            &&& m.bridging ==> asked(stopping, answers.len() as int + 1) is CloseStdin
            &&& m.clicking ==> asked(stopping, stopping.len() - 1) is StopScreenClick
            &&& course(stopping).1 is Done
        }),
{
    law_holds_along(answers);
    let m = course(answers).0;
    let n = answers.len() as int;
    let one = answers.push(Answer::ChaplinStopped);
    lemma_course_push(answers, Answer::ChaplinStopped);
    let stopping = answers + stop_answers(m);
    if m.bridging {
        let two = one.push(Answer::StdinClosed);
        let three = two.push(Answer::ScreenClickStopped);
        lemma_course_push(one, Answer::StdinClosed);
        lemma_course_push(two, Answer::ScreenClickStopped);
        assert(stopping == three);
        assert(stopping.take(n + 1) == one);
        assert(stopping.take(n + 2) == two);
    } else if m.clicking {
        let two = one.push(Answer::ScreenClickStopped);
        lemma_course_push(one, Answer::ScreenClickStopped);
        assert(stopping == two);
        assert(stopping.take(n + 1) == one);
    } else {
        assert(stopping == one);
    }
}

/// A session that ends well has stopped the children that it started: Chaplin, and then the
/// click daemon, if that was started, with nothing between the two but the closing of the
/// standard input.
pub proof fn law_done_means_stopped(answers: Seq<Answer>)
    requires
        is_course(answers),
        course(answers).1 is Done,
    ensures
        ({
            let n = answers.len() as int;
            if course(answers).0.clicking {
                &&& n >= 2
                &&& asked(answers, n - 1) is StopScreenClick
                &&& asked(answers, n - 2) is StopChaplin || (n >= 3 && asked(
                    answers,
                    n - 2,
                ) is CloseStdin && asked(answers, n - 3) is StopChaplin)
            } else {
                n >= 1 && asked(answers, n - 1) is StopChaplin
            }
        }),
{
    let n = answers.len() as int;
    let one = answers.drop_last();
    assert(answers.take(n - 1) == one);
    assert(is_course(one));
    law_holds_along(one);
    if course(answers).0.clicking {
        assert(course(one).1 is StopScreenClick);
        let two = one.drop_last();
        assert(answers.take(n - 2) == two);
        assert(is_course(two));
        if course(two).1 is CloseStdin {
            assert(answers.take(n - 3) == two.drop_last());
        }
    } else if course(one).1 is StopScreenClick {
        let two = one.drop_last();
        assert(is_course(two));
        law_holds_along(two);
    }
}

/// Once Chaplin is being stopped, nothing more is read or sent.
pub proof fn law_stopping_is_final(answers: Seq<Answer>, stop: int, later: int)
    requires
        is_course(answers),
        0 <= stop < later <= answers.len(),
        asked(answers, stop) is StopChaplin,
    ensures
        ({
            let ask = asked(answers, later);
            ask is CloseStdin || ask is StopScreenClick || ask is Done
        }),
    decreases later,
{
    lemma_course_take(answers, later);
    let now = answers.take(later);
    assert(now.drop_last() == answers.take(later - 1));
    if later - 1 > stop {
        law_stopping_is_final(answers, stop, later - 1);
    }
}

/// How far an ask is in the start of a session. All that comes once both children were started
/// is equally far, as are the ends.
pub open spec fn start_rank(ask: AskModel) -> int {
    match ask {
        AskModel::ListForAccess => 0,
        AskModel::OpenForAccess(_) => 1,
        AskModel::FindChaplin(_) => 2,
        AskModel::FindScreenClick(_) => 3,
        AskModel::ListExisting => 4,
        AskModel::SpawnChaplin(_) => 5,
        AskModel::AwaitDevice { .. } => 6,
        AskModel::CheckAfterWait => 7,
        AskModel::ListAfterWait => 8,
        AskModel::SpawnScreenClick(_) => 9,
        AskModel::TakeStdin => 10,
        _ => 11,
    }
}

/// The start of a session goes one way: each thing in it is asked for once at most, and none
/// after one that comes later in the start.
pub proof fn law_start_goes_one_way(answers: Seq<Answer>, first: int, second: int)
    requires
        is_course(answers),
        0 <= first < second <= answers.len(),
    ensures
        start_rank(asked(answers, first)) < start_rank(asked(answers, second)) || start_rank(
            asked(answers, first),
        ) == start_rank(asked(answers, second)) == 11,
    decreases second,
{
    if first < second - 1 {
        law_start_goes_one_way(answers, first, second - 1);
    }
    lemma_step(answers, second);
}

/// When events are first read, and whenever they are read after that, these have been asked for
/// before, in this order: the listing of the devices that are there, the start of Chaplin, the
/// waiting for a new device, and the start of the click daemon.
pub proof fn law_start_order(answers: Seq<Answer>)
    requires
        is_course(answers),
        course(answers).1 is Fetch,
    ensures
        exists|list: int, chaplin: int, wait: int, click: int|
            {
                &&& 0 <= list < chaplin < wait < click < answers.len()
                &&& #[trigger] asked(answers, list) is ListExisting
                &&& #[trigger] asked(answers, chaplin) is SpawnChaplin
                &&& #[trigger] asked(answers, wait) is AwaitDevice
                &&& #[trigger] asked(answers, click) is SpawnScreenClick
            },
{
    law_holds_along(answers);
    let click = lemma_clicking(answers);
    let wait = lemma_waited(answers, click);
    lemma_step(answers, wait);
    lemma_step(answers, wait - 1);
    assert(asked(answers, wait - 2) is ListExisting);
    assert(asked(answers, wait - 1) is SpawnChaplin);
}

/// Each child is started once at most. Chaplin is started right after the existing devices were
/// listed: by its script, which bash runs in the script's directory. The click daemon is started
/// as a fast daemon, with a pipe for its standard input.
pub proof fn law_children_start_once(answers: Seq<Answer>, at: int)
    requires
        is_course(answers),
        0 <= at <= answers.len(),
    ensures
        asked(answers, at) is SpawnChaplin ==> {
            &&& asked(answers, at) == AskModel::SpawnChaplin(chaplin_start())
            &&& at > 0 && asked(answers, at - 1) is ListExisting
            &&& forall|other: int|
                0 <= other <= answers.len() && other != at ==> !(#[trigger] asked(
                    answers,
                    other,
                ) is SpawnChaplin)
        },
        asked(answers, at) is SpawnScreenClick ==> {
            &&& asked(answers, at) == AskModel::SpawnScreenClick(screen_click_start())
            &&& forall|other: int|
                0 <= other <= answers.len() && other != at ==> !(#[trigger] asked(
                    answers,
                    other,
                ) is SpawnScreenClick)
        },
{
    lemma_step(answers, at);
    lemma_last_answer(answers, at);
    assert forall|other: int| 0 <= other <= answers.len() && other != at implies start_rank(
        #[trigger] asked(answers, other),
    ) != start_rank(asked(answers, at)) || start_rank(asked(answers, at)) == 11 by {
        if other < at {
            law_start_goes_one_way(answers, other, at);
        } else {
            law_start_goes_one_way(answers, at, other);
        }
    }
}

/// A new device is one that is not among those listed right before Chaplin was started, and is
/// awaited for a minute at most.
pub proof fn law_awaits_beyond_existing(answers: Seq<Answer>, at: int)
    requires
        is_course(answers),
        0 <= at <= answers.len(),
        asked(answers, at) is AwaitDevice,
    ensures
        at >= 2,
        asked(answers, at - 1) is SpawnChaplin,
        asked(answers, at - 2) is ListExisting,
        answers[at - 2] matches Answer::ExistingListed(Some(devices)) && asked(answers, at)
            == (AskModel::AwaitDevice { existing: devices@, timeout: 60_000_000_000 }),
{
    lemma_step(answers, at);
    lemma_step(answers, at - 1);
    lemma_last_answer(answers, at);
    lemma_last_answer(answers, at - 1);
}

/// The answers with which a session gets from its start to its device.
pub open spec fn start_answers(
    devices: DeviceSet,
    existing: DeviceSet,
    device: Vec<u8>,
) -> Seq<Answer> {
    seq![
        Answer::AccessListed(Some(devices)),
        Answer::AccessOpened(true),
        Answer::ChaplinFound(true),
        Answer::ScreenClickFound(true),
        Answer::ExistingListed(Some(existing)),
        Answer::ChaplinSpawned(true),
        Answer::DeviceAwaited(WatchEnd::Found(device)),
        Answer::ScreenClickSpawned(true),
        Answer::StdinTaken(true),
    ]
}

/// Where there is access to the devices, both programs are there, both can be started, and a
/// device shows up that was not there before, the session looks for both programs, starts
/// Chaplin, waits for the device, starts the click daemon, and turns to the device.
pub proof fn law_start_runs_through(devices: DeviceSet, existing: DeviceSet, device: Vec<u8>)
    requires
        devices@.len() > 0,
        !existing@.contains(device@),
    ensures
        ({
            let answers = start_answers(devices, existing, device);
            &&& is_course(answers)
            &&& asked(answers, 0) == AskModel::ListForAccess
            &&& asked(answers, 1) == AskModel::OpenForAccess(devices@[0])
            &&& asked(answers, 2) == AskModel::FindChaplin(CHAPLIN_SCRIPT@)
            &&& asked(answers, 3) == AskModel::FindScreenClick(SCREEN_CLICK_BIN@)
            &&& asked(answers, 4) == AskModel::ListExisting
            &&& asked(answers, 5) == AskModel::SpawnChaplin(chaplin_start())
            &&& asked(answers, 6) == AskModel::AwaitDevice {
                existing: existing@,
                timeout: WAIT_NANOS,
            }
            &&& asked(answers, 7) == AskModel::SpawnScreenClick(screen_click_start())
            &&& asked(answers, 8) == AskModel::TakeStdin
            &&& asked(answers, 9) == AskModel::Settle(SETTLE_MS)
            &&& course(answers).0.device == device@
        }),
{
    let answers = start_answers(devices, existing, device);
    assert(answers.take(0) == Seq::<Answer>::empty());
    lemma_course_push(answers.take(0), answers[0]);
    assert(answers.take(1) == answers.take(0).push(answers[0]));
    lemma_course_push(answers.take(1), answers[1]);
    assert(answers.take(2) == answers.take(1).push(answers[1]));
    lemma_course_push(answers.take(2), answers[2]);
    assert(answers.take(3) == answers.take(2).push(answers[2]));
    lemma_course_push(answers.take(3), answers[3]);
    assert(answers.take(4) == answers.take(3).push(answers[3]));
    lemma_course_push(answers.take(4), answers[4]);
    assert(answers.take(5) == answers.take(4).push(answers[4]));
    lemma_course_push(answers.take(5), answers[5]);
    assert(answers.take(6) == answers.take(5).push(answers[5]));
    lemma_course_push(answers.take(6), answers[6]);
    assert(answers.take(7) == answers.take(6).push(answers[6]));
    lemma_course_push(answers.take(7), answers[7]);
    assert(answers.take(8) == answers.take(7).push(answers[7]));
    lemma_course_push(answers.take(8), answers[8]);
    assert(answers.take(9) == answers.take(8).push(answers[8]));
    assert(answers.take(9) == answers);
}

/// Where no new device shows up in time, and the last look at the devices finds none either, the
/// session falls back to the manual mode once the click daemon was started.
pub proof fn law_falls_back(answers: Seq<Answer>, devices: DeviceSet)
    requires
        is_course(answers),
        course(answers).1 is ListAfterWait,
    ensures
        ({
            let started = answers + seq![
                Answer::ListedAfterWait(Some(devices)),
                Answer::ScreenClickSpawned(true),
                Answer::StdinTaken(true),
            ];
            &&& is_course(started)
            &&& course(started).1 is RunManual <==> (forall|device: Seq<u8>| #[trigger]
                devices@.contains(device) ==> course(answers).0.existing.contains(device))
        }),
{
    law_first_new(devices@, course(answers).0.existing);
    let one = answers.push(Answer::ListedAfterWait(Some(devices)));
    let two = one.push(Answer::ScreenClickSpawned(true));
    let three = two.push(Answer::StdinTaken(true));
    lemma_course_push(answers, Answer::ListedAfterWait(Some(devices)));
    lemma_course_push(one, Answer::ScreenClickSpawned(true));
    lemma_course_push(two, Answer::StdinTaken(true));
    assert(answers + seq![
        Answer::ListedAfterWait(Some(devices)),
        Answer::ScreenClickSpawned(true),
        Answer::StdinTaken(true),
    ] == three);
}

/// Where the click daemon was started, its start was asked for.
proof fn lemma_clicking(answers: Seq<Answer>) -> (click: int)
    requires
        is_course(answers),
        course(answers).0.clicking,
    ensures
        0 <= click < answers.len(),
        asked(answers, click) is SpawnScreenClick,
    decreases answers.len(),
{
    let before = answers.drop_last();
    let n = answers.len() as int;
    if course(before).0.clicking {
        let click = lemma_clicking(before);
        assert(before.take(click) == answers.take(click));
        click
    } else {
        assert(answers.take(n - 1) == before);
        n - 1
    }
}

/// The start of the click daemon is asked for only after the waiting for a new device.
proof fn lemma_waited(answers: Seq<Answer>, click: int) -> (wait: int)
    requires
        is_course(answers),
        0 <= click <= answers.len(),
        asked(answers, click) is SpawnScreenClick,
    ensures
        2 <= wait < click,
        asked(answers, wait) is AwaitDevice,
{
    lemma_step(answers, click);
    let wait = if asked(answers, click - 1) is AwaitDevice {
        click - 1
    } else {
        lemma_step(answers, click - 1);
        lemma_step(answers, click - 2);
        click - 3
    };
    lemma_step(answers, wait);
    lemma_step(answers, wait - 1);
    wait
}

/// How far what an answer is to is in the start of a session.
spec fn answered_rank(answer: Answer) -> int {
    match answer {
        Answer::AccessListed(_) => 0,
        Answer::AccessOpened(_) => 1,
        Answer::ChaplinFound(_) => 2,
        Answer::ScreenClickFound(_) => 3,
        Answer::ExistingListed(_) => 4,
        Answer::ChaplinSpawned(_) => 5,
        Answer::DeviceAwaited(_) => 6,
        Answer::CheckedAfterWait { .. } => 7,
        Answer::ListedAfterWait(_) => 8,
        Answer::ScreenClickSpawned(_) => 9,
        Answer::StdinTaken(_) => 10,
        _ => 11,
    }
}

/// How far an ask in the start of a session can be right before another.
spec fn is_start_step(before: int, after: int) -> bool {
    &&& before < after || before == after == 11
    &&& after == 5 ==> before == 4
    &&& after == 6 ==> before == 5
    &&& after == 7 ==> before == 6
    &&& after == 8 ==> before == 7
    &&& after == 9 ==> before == 6 || before == 8
}

proof fn lemma_answered_rank(m: SessionModel, ask: AskModel, answer: Answer)
    requires
        is_answer_to(m, ask, answer),
    ensures
        start_rank(ask) == answered_rank(answer),
{
}

proof fn lemma_start_step(m: SessionModel, answer: Answer)
    ensures
        is_start_step(answered_rank(answer), start_rank(session_next(m, answer).1)),
{
    let after = session_next(m, answer).1;
    match answer {
        Answer::AccessListed(_) => {
            assert(after is OpenForAccess || after is Failed);
        },
        Answer::AccessOpened(_) => {
            assert(after is FindChaplin || after is Failed);
        },
        Answer::ChaplinFound(_) => {
            assert(after is FindScreenClick || after is Failed);
        },
        Answer::ScreenClickFound(_) => {
            assert(after is ListExisting || after is Failed);
        },
        Answer::ExistingListed(_) => {
            assert(after is SpawnChaplin || after is Failed);
        },
        Answer::ChaplinSpawned(_) => {
            assert(after is AwaitDevice || after is Failed);
        },
        Answer::DeviceAwaited(_) => {
            assert(after is SpawnScreenClick || after is CheckAfterWait || after is Failed);
        },
        Answer::CheckedAfterWait { .. } => {
            assert(after is ListAfterWait || after is StopChaplin);
        },
        Answer::ListedAfterWait(_) => {
            assert(after is SpawnScreenClick || after is Failed);
        },
        Answer::ScreenClickSpawned(_) => {
            assert(after is TakeStdin || after is Failed);
        },
        _ => {
            assert(start_rank(after) == 11);
        },
    }
}

proof fn lemma_step(answers: Seq<Answer>, count: int)
    requires
        is_course(answers),
        0 <= count <= answers.len(),
    ensures
        count == 0 ==> asked(answers, count) is ListForAccess,
        count > 0 ==> is_start_step(
            start_rank(asked(answers, count - 1)),
            start_rank(asked(answers, count)),
        ),
{
    lemma_course_take(answers, count);
    if count > 0 {
        let now = answers.take(count);
        assert(now.drop_last() == answers.take(count - 1));
        let (m, ask) = course(now.drop_last());
        lemma_answered_rank(m, ask, now.last());
        lemma_start_step(m, now.last());
    }
}

/// What was asked for is what comes of the answer before, which is one to what was asked for
/// before that.
proof fn lemma_last_answer(answers: Seq<Answer>, count: int)
    requires
        is_course(answers),
        0 <= count <= answers.len(),
    ensures
        count > 0 ==> course(answers.take(count)) == session_next(
            course(answers.take(count - 1)).0,
            answers[count - 1],
        ),
        count > 0 ==> is_answer_to(
            course(answers.take(count - 1)).0,
            asked(answers, count - 1),
            answers[count - 1],
        ),
{
    lemma_course_take(answers, count);
    if count > 0 {
        assert(answers.take(count).drop_last() == answers.take(count - 1));
    }
}

/// Where a probe of the device has shown a virtual keyboard, there was such a probe.
proof fn lemma_probed(answers: Seq<Answer>)
    requires
        is_course(answers),
        course(answers).0.virtual_keyboard,
    ensures
        exists|at: int|
            0 <= at < answers.len() && #[trigger] asked(answers, at) == AskModel::ProbeKeyboard(
                course(answers).0.device,
            ) && (answers[at] matches Answer::KeyboardProbed(probe) && probed_virtual(probe)),
    decreases answers.len(),
{
    let before = answers.drop_last();
    let n = answers.len() as int;
    if answers.last() is KeyboardProbed {
        law_holds_along(before);
        assert(answers.take(n - 1) == before);
        assert(asked(answers, n - 1) == AskModel::ProbeKeyboard(course(answers).0.device));
    } else {
        lemma_probed(before);
        let at = choose|at: int|
            0 <= at < before.len() && #[trigger] asked(before, at) == AskModel::ProbeKeyboard(
                course(before).0.device,
            ) && (before[at] matches Answer::KeyboardProbed(probe) && probed_virtual(probe));
        assert(before.take(at) == answers.take(at));
        assert(asked(answers, at) == asked(before, at));
    }
}

proof fn lemma_drained(typing: Typing, queue: Seq<RawEvent>)
    ensures
        ({
            let (next, rest, sentence) = drained(typing, queue);
            let (end, to_come) = after_events(next, rest);
            &&& after_events(typing, queue) == (end, as_seq(sentence) + to_come)
            &&& sentence is None ==> rest.len() == 0
            &&& is_open(typing.text) ==> is_open(next.text)
            &&& is_open(typing.text) && sentence is Some ==> is_sendable(sentence->0)
        }),
    decreases queue.len(),
{
    if queue.len() == 0 {
        assert(as_seq(None) + Seq::<Seq<char>>::empty() == Seq::<Seq<char>>::empty());
    } else {
        let (next, sentence) = after_event(typing, queue[0]);
        if is_open(typing.text) {
            law_event_keeps_order(typing, queue[0]);
        }
        if sentence is None {
            lemma_drained(next, queue.drop_first());
            let rest = after_events(next, queue.drop_first()).1;
            assert(as_seq(None) + rest == rest);
        }
    }
}

/// What holds along goes on to hold with every answer.
proof fn lemma_holds_on(m: SessionModel, ask: AskModel, answer: Answer)
    requires
        holds_along(m, ask),
        is_answer_to(m, ask, answer),
    ensures
        holds_along(session_next(m, answer).0, session_next(m, answer).1),
{
    match answer {
        Answer::Fetched(events) => {
            lemma_goes_on(SessionModel { queue: m.queue + events@, ..m });
        },
        Answer::Sent(_) => {
            lemma_goes_on(m);
        },
        Answer::ListedAfterWait(Some(devices)) => {
            law_first_new(devices@, m.existing);
        },
        _ => {},
    }
}

proof fn lemma_goes_on(m: SessionModel)
    requires
        is_open(m.typing.text),
        m.bridging,
        m.virtual_keyboard && m.found && m.clicking && !m.existing.contains(m.device),
    ensures
        holds_along(go_on(m).0, go_on(m).1),
{
    lemma_drained(m.typing, m.queue);
}

proof fn lemma_course_push(answers: Seq<Answer>, answer: Answer)
    requires
        is_course(answers),
        is_answer_to(course(answers).0, course(answers).1, answer),
    ensures
        is_course(answers.push(answer)),
        course(answers.push(answer)) == session_next(course(answers).0, answer),
{
    assert(answers.push(answer).drop_last() == answers);
}

proof fn lemma_course_take(answers: Seq<Answer>, count: int)
    requires
        is_course(answers),
        0 <= count <= answers.len(),
    ensures
        is_course(answers.take(count)),
    decreases answers.len(),
{
    if count < answers.len() {
        lemma_course_take(answers.drop_last(), count);
        assert(answers.drop_last().take(count) == answers.take(count));
    } else {
        assert(answers.take(count) == answers);
    }
}

} // verus!
