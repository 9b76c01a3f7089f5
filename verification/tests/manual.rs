use chaplin_click::children::ChildStatus;
use chaplin_click::manual::{
    line_awaited, line_command, run_manual_mode, LineOutcome, ManualAnswer, ManualAsk,
    LINE_POLL_MS,
};

fn sent(ask: ManualAsk) -> Option<String> {
    match ask {
        ManualAsk::Send(text) => Some(text),
        _ => None,
    }
}

fn line(text: &str) -> ManualAsk {
    run_manual_mode(&ManualAnswer::Line(text.to_string()))
}

#[test]
fn a_line_is_sent_without_its_ends() {
    assert_eq!(sent(line("  settings icon \n")), Some("settings icon".to_string()));
    assert_eq!(sent(line("quit now\n")), Some("quit now".to_string()));
    assert_eq!(sent(line("Quit\n")), Some("Quit".to_string()));
    assert_eq!(sent(line_command("é\u{a0}\r\n")), Some("é".to_string()));
}

#[test]
fn a_blank_line_is_passed_over() {
    assert!(matches!(line("\n"), ManualAsk::Check));
    assert!(matches!(line("  \t \r\n"), ManualAsk::Check));
}

#[test]
fn two_words_end_the_mode() {
    assert!(matches!(line("quit\n"), ManualAsk::Over));
    assert!(matches!(line("  exit\n"), ManualAsk::Over));
}

#[test]
fn the_mode_goes_on_until_something_ends_it() {
    let ask = |answer: ManualAnswer| run_manual_mode(&answer);
    assert!(matches!(ask(ManualAnswer::Checked { shutdown: false }), ManualAsk::ReadLine));
    assert!(matches!(ask(ManualAnswer::Checked { shutdown: true }), ManualAsk::Over));
    assert!(matches!(ask(ManualAnswer::Sent), ManualAsk::Check));
    assert!(matches!(ask(ManualAnswer::SendFailed), ManualAsk::Over));
    assert!(matches!(ask(ManualAnswer::EndOfInput), ManualAsk::Over));
    assert!(matches!(ask(ManualAnswer::ReadFailed), ManualAsk::Over));
}

#[test]
fn what_happens_while_a_line_is_awaited_ends_the_mode() {
    assert_eq!(LINE_POLL_MS, 100);
    assert!(matches!(run_manual_mode(&ManualAnswer::ShutdownAsked), ManualAsk::Over));
    assert!(matches!(run_manual_mode(&ManualAnswer::ChaplinGone), ManualAsk::Over));
}

fn outcomes() -> Vec<LineOutcome> {
    let line = LineOutcome::Line("the menu\n".to_string());
    vec![line, LineOutcome::End, LineOutcome::Failed, LineOutcome::Nothing]
}

#[test]
fn a_shutdown_goes_before_a_line() {
    for chaplin in [ChildStatus::Running, ChildStatus::Exited, ChildStatus::Unknown] {
        for awaited in outcomes() {
            let answer = line_awaited(true, chaplin, awaited);
            assert!(matches!(answer, Some(ManualAnswer::ShutdownAsked)));
        }
    }
}

#[test]
fn what_came_goes_before_chaplin_being_gone() {
    for chaplin in [ChildStatus::Running, ChildStatus::Exited, ChildStatus::Unknown] {
        let mut awaited = outcomes().into_iter();
        let mut next = || line_awaited(false, chaplin, awaited.next().unwrap());
        match next() {
            Some(ManualAnswer::Line(line)) => assert_eq!(line, "the menu\n"),
            _ => panic!(),
        }
        assert!(matches!(next(), Some(ManualAnswer::EndOfInput)));
        assert!(matches!(next(), Some(ManualAnswer::ReadFailed)));
        if chaplin == ChildStatus::Running {
            assert!(next().is_none());
        } else {
            assert!(matches!(next(), Some(ManualAnswer::ChaplinGone)));
        }
    }
}

/// Runs the mode on these lines, and tells what was sent and how many lines were read.
fn run(lines: &[&str]) -> (Vec<String>, usize) {
    let mut texts = Vec::new();
    let mut read = 0;
    let mut answer = ManualAnswer::Checked { shutdown: false };
    loop {
        answer = match run_manual_mode(&answer) {
            ManualAsk::Check => ManualAnswer::Checked { shutdown: false },
            ManualAsk::ReadLine => {
                if read == lines.len() {
                    ManualAnswer::EndOfInput
                } else {
                    read += 1;
                    ManualAnswer::Line(lines[read - 1].to_string())
                }
            }
            ManualAsk::Send(text) => {
                texts.push(text);
                ManualAnswer::Sent
            }
            ManualAsk::Over => return (texts, read),
        };
    }
}

#[test]
fn a_run_sends_the_lines_in_their_order() {
    let texts = |texts: &[&str]| texts.iter().map(|text| text.to_string()).collect::<Vec<_>>();
    assert_eq!(run(&[]), (texts(&[]), 0));
    assert_eq!(
        run(&[" the menu\n", "\n", "Save \n", "the menu\n"]),
        (texts(&["the menu", "Save", "the menu"]), 4)
    );
    assert_eq!(run(&["one\n", " quit \n", "two\n"]), (texts(&["one"]), 2));
    assert_eq!(run(&["exit\n", "one\n"]), (texts(&[]), 1));
}
