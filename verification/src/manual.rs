//! The fallback mode, in which the targets are typed into the terminal.

use crate::children::ChildStatus;
use crate::text::{
    is_white_space, law_trimmed, law_trimmed_is_the_middle, law_trimmed_twice, same_text, trim,
    trimmed,
};
use vstd::prelude::*;

verus! {

/// How often to look for a shutdown and at Chaplin while a line is awaited, in milliseconds.
pub const LINE_POLL_MS: u64 = 100;

/// What came of what was asked.
pub enum ManualAnswer {
    /// Whether a shutdown was asked for.
    Checked { shutdown: bool },
    /// A line was read, and no shutdown was asked for before it.
    Line(String),
    /// A shutdown was asked for while a line was awaited.
    ShutdownAsked,
    /// Chaplin was gone while a line was awaited.
    ChaplinGone,
    /// There are no more lines.
    EndOfInput,
    /// No line could be read.
    ReadFailed,
    /// The text was sent.
    Sent,
    /// The text could not be sent.
    SendFailed,
}

/// What came of waiting for a line.
pub enum LineOutcome {
    /// A line was read.
    Line(String),
    /// There are no more lines.
    End,
    /// No line could be read.
    Failed,
    /// There is no line yet.
    Nothing,
}

/// What the manual mode needs done next.
pub enum ManualAsk {
    /// Look whether a shutdown was asked for.
    Check,
    /// Read a line, and look for a shutdown and at Chaplin while there is none.
    ReadLine,
    /// Send a text as one line.
    Send(String),
    /// Nothing: the mode is over.
    Over,
}

/// `ManualAsk`, with a text as a sequence.
pub enum ManualAskModel {
    Check,
    ReadLine,
    Send(Seq<char>),
    Over,
}

impl View for ManualAsk {
    type V = ManualAskModel;

    open spec fn view(&self) -> ManualAskModel {
        match self {
            ManualAsk::Check => ManualAskModel::Check,
            ManualAsk::ReadLine => ManualAskModel::ReadLine,
            ManualAsk::Send(text) => ManualAskModel::Send(text@),
            ManualAsk::Over => ManualAskModel::Over,
        }
    }
}

/// The words that end the mode.
pub open spec fn is_last_word(text: Seq<char>) -> bool {
    text == "quit"@ || text == "exit"@
}

/// What a line asks for: nothing if it is blank, the end if it says so, and else that it be
/// sent, without the white space at its ends.
pub open spec fn after_line(line: Seq<char>) -> ManualAskModel {
    let text = trimmed(line);
    if text.len() == 0 {
        ManualAskModel::Check
    } else if is_last_word(text) {
        ManualAskModel::Over
    } else {
        ManualAskModel::Send(text)
    }
}

/// What the manual mode needs done after each answer.
pub open spec fn manual_next(answer: ManualAnswer) -> ManualAskModel {
    match answer {
        ManualAnswer::Checked { shutdown } => if shutdown {
            ManualAskModel::Over
        } else {
            ManualAskModel::ReadLine
        },
        ManualAnswer::Line(line) => after_line(line@),
        ManualAnswer::ShutdownAsked => ManualAskModel::Over,
        ManualAnswer::ChaplinGone => ManualAskModel::Over,
        ManualAnswer::EndOfInput => ManualAskModel::Over,
        ManualAnswer::ReadFailed => ManualAskModel::Over,
        ManualAnswer::Sent => ManualAskModel::Check,
        ManualAnswer::SendFailed => ManualAskModel::Over,
    }
}

/// The answer that the waiting for a line ends with, or none if it goes on. A shutdown goes before
/// whatever came with it, and that goes before Chaplin being gone: it has exited, or cannot be
/// looked at.
pub open spec fn awaited_answer(
    shutdown: bool,
    chaplin: ChildStatus,
    awaited: LineOutcome,
) -> Option<ManualAnswer> {
    if shutdown {
        Some(ManualAnswer::ShutdownAsked)
    } else {
        match awaited {
            LineOutcome::Line(line) => Some(ManualAnswer::Line(line)),
            LineOutcome::End => Some(ManualAnswer::EndOfInput),
            LineOutcome::Failed => Some(ManualAnswer::ReadFailed),
            LineOutcome::Nothing => if chaplin != ChildStatus::Running {
                Some(ManualAnswer::ChaplinGone)
            } else {
                None
            },
        }
    }
}

/// Tells whether the waiting for a line is over, and with what answer: from whether a shutdown was
/// asked for, a look at Chaplin, and what came of the waiting so far.
pub fn line_awaited(shutdown: bool, chaplin: ChildStatus, awaited: LineOutcome) -> (r: Option<
    ManualAnswer,
>)
    ensures
        r == awaited_answer(shutdown, chaplin, awaited),
{
    if shutdown {
        return Some(ManualAnswer::ShutdownAsked);
    }
    match awaited {
        LineOutcome::Line(line) => Some(ManualAnswer::Line(line)),
        LineOutcome::End => Some(ManualAnswer::EndOfInput),
        LineOutcome::Failed => Some(ManualAnswer::ReadFailed),
        LineOutcome::Nothing => {
            if chaplin != ChildStatus::Running {
                Some(ManualAnswer::ChaplinGone)
            } else {
                None
            }
        },
    }
}

/// Tells what a line that was typed asks for.
pub fn line_command(line: &str) -> (r: ManualAsk)
    ensures
        r@ == after_line(line@),
{
    let text: &str = trim(line);
    if text.is_empty() {
        ManualAsk::Check
    } else if same_text(text, "quit") || same_text(text, "exit") {
        ManualAsk::Over
    } else {
        ManualAsk::Send(text.to_string())
    }
}

/// Tells what the manual mode needs done next. It begins with the answer `Checked`.
pub fn run_manual_mode(answer: &ManualAnswer) -> (r: ManualAsk)
    ensures
        r@ == manual_next(*answer),
{
    match answer {
        ManualAnswer::Checked { shutdown } => {
            if *shutdown {
                ManualAsk::Over
            } else {
                ManualAsk::ReadLine
            }
        },
        ManualAnswer::Line(line) => line_command(line.as_str()),
        ManualAnswer::ShutdownAsked => ManualAsk::Over,
        ManualAnswer::ChaplinGone => ManualAsk::Over,
        ManualAnswer::EndOfInput => ManualAsk::Over,
        ManualAnswer::ReadFailed => ManualAsk::Over,
        ManualAnswer::Sent => ManualAsk::Check,
        ManualAnswer::SendFailed => ManualAsk::Over,
    }
}

/// Whether a text is what reading a line gives: no line break in it, but for one at its end.
pub open spec fn is_line(line: Seq<char>) -> bool {
    forall|i: int| 0 <= i < line.len() - 1 ==> #[trigger] line[i] != '\n'
}

/// What a line has sent is not empty, has no white space at its ends, is none of the words that
/// end the mode, and takes one line.
pub proof fn law_sent_from_line(line: Seq<char>)
    requires
        is_line(line),
    ensures
        after_line(line) matches ManualAskModel::Send(text) ==> {
            &&& text.len() > 0
            &&& trimmed(text) == text
            &&& !is_last_word(text)
            &&& !text.contains('\n')
        },
{
    law_trimmed(line);
    law_trimmed_twice(line);
    let text = trimmed(line);
    if text.contains('\n') {
        let (lead, end) = choose|lead: int, end: int|
            {
                &&& 0 <= lead <= end <= line.len()
                &&& text == #[trigger] line.subrange(lead, end)
                &&& forall|i: int| 0 <= i < lead ==> is_white_space(#[trigger] line[i])
                &&& forall|i: int| end <= i < line.len() ==> is_white_space(#[trigger] line[i])
            };
        let at = choose|at: int| 0 <= at < text.len() && text[at] == '\n';
        assert(line[lead + at] == '\n');
        assert(text.last() == '\n');
    }
}

/// A blank line asks for nothing, and the mode goes on.
pub proof fn law_blank_line(line: Seq<char>)
    requires
        forall|i: int| 0 <= i < line.len() ==> is_white_space(#[trigger] line[i]),
    ensures
        after_line(line) is Check,
{
    law_trimmed(line);
    if trimmed(line).len() > 0 {
        let (lead, end) = choose|lead: int, end: int|
            {
                &&& 0 <= lead <= end <= line.len()
                &&& trimmed(line) == #[trigger] line.subrange(lead, end)
                &&& forall|i: int| 0 <= i < lead ==> is_white_space(#[trigger] line[i])
                &&& forall|i: int| end <= i < line.len() ==> is_white_space(#[trigger] line[i])
            };
        assert(trimmed(line)[0] == line[lead]);
    }
}

/// The mode ends for a shutdown, also one that comes while a line is awaited, when Chaplin is
/// gone, at the end of the input, when nothing can be read or sent any more, or when a line says
/// so, and for nothing else.
pub proof fn law_manual_ends(answer: ManualAnswer)
    ensures
        manual_next(answer) is Over <==> {
            ||| answer matches ManualAnswer::Checked { shutdown } && shutdown
            ||| answer is ShutdownAsked
            ||| answer is ChaplinGone
            ||| answer is EndOfInput
            ||| answer is ReadFailed
            ||| answer is SendFailed
            ||| answer matches ManualAnswer::Line(line) && is_last_word(trimmed(line@))
        },
{
    reveal_strlit("quit");
    reveal_strlit("exit");
}

/// The mode ends with two words, "quit" and "exit", and with no other.
pub proof fn law_last_words(text: Seq<char>)
    ensures
        is_last_word(text) <==> text == seq!['q', 'u', 'i', 't'] || text == seq![
            'e',
            'x',
            'i',
            't',
        ],
{
    reveal_strlit("quit");
    reveal_strlit("exit");
    assert("quit"@ == seq!['q', 'u', 'i', 't']);
    assert("exit"@ == seq!['e', 'x', 'i', 't']);
}

/// A line is read after every check that shows no shutdown, and only then. The next check comes
/// when a text was sent, or a line was blank. What is sent is a line without the white space at its
/// ends, and every line is sent that is neither blank nor one of the words that end the mode.
pub proof fn law_manual_asks(answer: ManualAnswer)
    ensures
        manual_next(answer) is ReadLine <==> answer == (ManualAnswer::Checked { shutdown: false }),
        manual_next(answer) is Check <==> {
            ||| answer is Sent
            ||| answer matches ManualAnswer::Line(line) && forall|i: int|
                0 <= i < line@.len() ==> is_white_space(#[trigger] line@[i])
        },
        manual_next(answer) is Send <==> (answer matches ManualAnswer::Line(line) && trimmed(
            line@,
        ).len() > 0 && !is_last_word(trimmed(line@))),
        manual_next(answer) matches ManualAskModel::Send(text) ==> (answer matches ManualAnswer::Line(
            line,
        ) && text == trimmed(line@)),
{
    if let ManualAnswer::Line(line) = answer {
        if forall|i: int| 0 <= i < line@.len() ==> is_white_space(#[trigger] line@[i]) {
            law_blank_line(line@);
        }
        law_trimmed(line@);
    }
}

/// A line is sent as it was typed, whatever white space stands around it, and of any length.
pub proof fn law_line_is_sent(before: Seq<char>, text: Seq<char>, behind: Seq<char>)
    requires
        forall|i: int| 0 <= i < before.len() ==> is_white_space(#[trigger] before[i]),
        forall|i: int| 0 <= i < behind.len() ==> is_white_space(#[trigger] behind[i]),
        text.len() > 0,
        !is_white_space(text[0]) && !is_white_space(text.last()),
        text != "quit"@,
        text != "exit"@,
    ensures
        after_line(before + text + behind) == ManualAskModel::Send(text),
{
    law_trimmed_is_the_middle(before, text, behind);
}

/// Whether an answer is one to what was asked.
pub open spec fn is_manual_answer(ask: ManualAskModel, answer: ManualAnswer) -> bool {
    match answer {
        ManualAnswer::Checked { .. } => ask is Check,
        ManualAnswer::Line(_) => ask is ReadLine,
        ManualAnswer::ShutdownAsked => ask is ReadLine,
        ManualAnswer::ChaplinGone => ask is ReadLine,
        ManualAnswer::EndOfInput => ask is ReadLine,
        ManualAnswer::ReadFailed => ask is ReadLine,
        ManualAnswer::Sent => ask is Send,
        ManualAnswer::SendFailed => ask is Send,
    }
}

/// While a line is awaited: the waiting goes on exactly while there is no shutdown, nothing came
/// and Chaplin runs; a shutdown ends the mode, whatever came with it, and so does Chaplin being
/// gone where nothing came; and a line that came without a shutdown is dealt with, even if Chaplin
/// is gone. A line is handed on whole, as it came.
pub proof fn law_awaiting(shutdown: bool, chaplin: ChildStatus, awaited: LineOutcome)
    ensures
        ({
            let answer = awaited_answer(shutdown, chaplin, awaited);
            &&& answer is None <==> !shutdown && awaited is Nothing && chaplin
                == ChildStatus::Running
            &&& answer is Some ==> is_manual_answer(ManualAskModel::ReadLine, answer->0)
            &&& shutdown ==> manual_next(answer->0) is Over
            &&& awaited is Nothing && chaplin != ChildStatus::Running ==> manual_next(
                answer->0,
            ) is Over
            &&& !shutdown ==> (awaited matches LineOutcome::Line(line) ==> manual_next(answer->0)
                == after_line(line@))
            &&& !shutdown ==> (awaited matches LineOutcome::Line(line) ==> answer == Some(
                ManualAnswer::Line(line),
            ))
            &&& answer == Some(ManualAnswer::EndOfInput) <==> !shutdown && awaited is End
            &&& answer == Some(ManualAnswer::ReadFailed) <==> !shutdown && awaited is Failed
            &&& answer == Some(ManualAnswer::ShutdownAsked) <==> shutdown
            &&& answer == Some(ManualAnswer::ChaplinGone) <==> !shutdown && awaited is Nothing
                && chaplin != ChildStatus::Running
        }),
{
}

/// What the mode asks for after some answers. It begins with a check.
pub open spec fn manual_asked(answers: Seq<ManualAnswer>) -> ManualAskModel {
    if answers.len() == 0 {
        ManualAskModel::Check
    } else {
        manual_next(answers.last())
    }
}

/// Whether each of the answers is one to what was asked before it.
pub open spec fn is_manual_run(answers: Seq<ManualAnswer>) -> bool
    decreases answers.len(),
{
    answers.len() == 0 || (is_manual_run(answers.drop_last()) && is_manual_answer(
        manual_asked(answers.drop_last()),
        answers.last(),
    ))
}

/// All the lines that were read.
pub open spec fn lines_read(answers: Seq<ManualAnswer>) -> Seq<Seq<char>>
    decreases answers.len(),
{
    if answers.len() == 0 {
        Seq::empty()
    } else {
        lines_read(answers.drop_last()) + match answers.last() {
            ManualAnswer::Line(line) => seq![line@],
            _ => Seq::empty(),
        }
    }
}

/// All the texts that the mode asked to send.
pub open spec fn texts_sent(answers: Seq<ManualAnswer>) -> Seq<Seq<char>>
    decreases answers.len(),
{
    if answers.len() == 0 {
        Seq::empty()
    } else {
        texts_sent(answers.drop_last()) + match manual_asked(answers) {
            ManualAskModel::Send(text) => seq![text],
            _ => Seq::empty(),
        }
    }
}

/// Whether one of the lines ends the mode.
pub open spec fn has_last_word(lines: Seq<Seq<char>>) -> bool {
    exists|i: int| 0 <= i < lines.len() && is_last_word(trimmed(#[trigger] lines[i]))
}

/// The lines before the first that ends the mode, without the blank ones, and without the white
/// space at the ends of the others.
pub open spec fn commands(lines: Seq<Seq<char>>) -> Seq<Seq<char>>
    decreases lines.len(),
{
    if lines.len() == 0 {
        Seq::empty()
    } else {
        let text = trimmed(lines.last());
        if has_last_word(lines) || text.len() == 0 {
            commands(lines.drop_last())
        } else {
            commands(lines.drop_last()).push(text)
        }
    }
}

/// In every run of the mode, what is sent are the lines that were read before one that ends the
/// mode: each that is not blank, once, in their order, and without the white space at its ends.
/// Nothing is read after a line that ends the mode.
pub proof fn law_manual_run(answers: Seq<ManualAnswer>)
    requires
        is_manual_run(answers),
    ensures
        texts_sent(answers) == commands(lines_read(answers)),
        has_last_word(lines_read(answers)) ==> manual_asked(answers) is Over,
    decreases answers.len(),
{
    if answers.len() > 0 {
        let before = answers.drop_last();
        law_manual_run(before);
        let lines = lines_read(before);
        assert(!has_last_word(lines));
        reveal_strlit("quit");
        reveal_strlit("exit");
        match answers.last() {
            ManualAnswer::Line(line) => {
                let now = lines_read(answers);
                let text = trimmed(line@);
                assert(now.drop_last() == lines);
                assert(now.last() == line@);
                assert forall|i: int| 0 <= i < now.len() && is_last_word(
                    trimmed(#[trigger] now[i]),
                ) implies i == now.len() - 1 by {
                    if i < lines.len() {
                        assert(now[i] == lines[i]);
                    }
                }
                assert(has_last_word(now) <==> is_last_word(text)) by {
                    assert(now[now.len() - 1] == line@);
                }
                assert(texts_sent(answers) == commands(now));
            },
            _ => {
                assert(lines_read(answers) == lines);
                assert(texts_sent(answers) == texts_sent(before));
            },
        }
    }
}

} // verus!
