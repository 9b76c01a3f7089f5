//! The lines with which the bridge reports what it does.

use vstd::prelude::*;
use vstd::string::StringExecFns;

verus! {

pub const BRIGHT: &'static str = "\x1b[38;2;0;255;200m";
pub const DIM: &'static str = "\x1b[38;2;0;200;160m";
pub const FAINT: &'static str = "\x1b[38;2;0;130;100m";
pub const WARN: &'static str = "\x1b[38;2;255;200;0m";
pub const RESET: &'static str = "\x1b[0m";
pub const BOLD: &'static str = "\x1b[1m";

/// The width of the column of tags.
pub const TAG_WIDTH: usize = 14;

/// A text, with spaces behind it up to a width in characters.
pub open spec fn padded(text: Seq<char>, width: int) -> Seq<char> {
    text + Seq::new(
        if text.len() < width {
            (width - text.len()) as nat
        } else {
            0
        },
        |i: int| ' ',
    )
}

/// A report: a mark, a tag in its column, and a message.
pub open spec fn report(
    mark_color: Seq<char>,
    mark: Seq<char>,
    tag_color: Seq<char>,
    tag: Seq<char>,
    message: Seq<char>,
) -> Seq<char> {
    "  "@ + mark_color + mark + RESET@ + " "@ + tag_color + padded(tag, TAG_WIDTH as int) + RESET@
        + " "@ + message
}

/// A report ends with its message, whole and unchanged, and what stands before it does not depend
/// on the message.
pub proof fn law_report_ends_with_message(
    mark_color: Seq<char>,
    mark: Seq<char>,
    tag_color: Seq<char>,
    tag: Seq<char>,
    message: Seq<char>,
)
    ensures
        report(mark_color, mark, tag_color, tag, message) == report(
            mark_color,
            mark,
            tag_color,
            tag,
            Seq::empty(),
        ) + message,
{
    let head = report(mark_color, mark, tag_color, tag, Seq::empty());
    assert(report(mark_color, mark, tag_color, tag, message) == head + message);
}

/// The tag stands in a column of 14 characters: a shorter tag is followed by spaces up to that
/// width, a longer one pushes the message on, and no character of a tag is lost. Before the column
/// stand two spaces, the mark, and a space, and behind it a space, each in its color.
pub proof fn law_report_column(
    mark_color: Seq<char>,
    mark: Seq<char>,
    tag_color: Seq<char>,
    tag: Seq<char>,
    message: Seq<char>,
)
    ensures
        ({
            let line = report(mark_color, mark, tag_color, tag, message);
            let before = "  "@ + mark_color + mark + RESET@ + " "@ + tag_color;
            let behind = RESET@ + " "@ + message;
            let width = line.len() - before.len() - behind.len();
            &&& width == (if tag.len() < 14 {
                14
            } else {
                tag.len() as int
            })
            &&& before.is_prefix_of(line)
            &&& tag == line.subrange(before.len() as int, (before.len() + tag.len()) as int)
            &&& forall|i: int|
                before.len() + tag.len() <= i < before.len() + width ==> #[trigger] line[i] == ' '
            &&& behind == line.skip(before.len() + width)
        }),
{
    let line = report(mark_color, mark, tag_color, tag, message);
    let before = "  "@ + mark_color + mark + RESET@ + " "@ + tag_color;
    let behind = RESET@ + " "@ + message;
    assert(line == before + padded(tag, 14) + behind);
    assert(before == line.take(before.len() as int));
    assert(tag == line.subrange(before.len() as int, (before.len() + tag.len()) as int));
    assert(behind == line.skip((before.len() + padded(tag, 14).len()) as int));
}

fn pad(text: &str, width: usize) -> (r: String)
    ensures
        r@ == padded(text@, width as int),
{
    let mut r: String = text.to_string();
    let mut length: usize = text.unicode_len();
    proof {
        reveal_strlit(" ");
    }
    while length < width
        invariant
            length >= text@.len(),
            length <= width || length == text@.len(),
            r@ == padded(text@, length as int),
            " "@ == seq![' '],
        decreases width - length,
    {
        r.append(" ");
        length = length + 1;
        assert(padded(text@, length as int) == padded(text@, length - 1) + seq![' ']);
    }
    assert(r@ == padded(text@, width as int));
    r
}

fn report_line(
    mark_color: &str,
    mark: &str,
    tag_color: &str,
    tag: &str,
    message: &str,
) -> (r: String)
    ensures
        r@ == report(mark_color@, mark@, tag_color@, tag@, message@),
{
    let tag: String = pad(tag, TAG_WIDTH);
    let mut r: String = "  ".to_string();
    r.append(mark_color);
    r.append(mark);
    r.append(RESET);
    r.append(" ");
    r.append(tag_color);
    r.append(tag.as_str());
    r.append(RESET);
    r.append(" ");
    r.append(message);
    r
}

/// The line that reports an ordinary event.
pub fn log(tag: &str, message: &str) -> (r: String)
    ensures
        r@ == report(BRIGHT@, ">"@, DIM@, tag@, message@),
{
    report_line(BRIGHT, ">", DIM, tag, message)
}

/// The line that reports something to look out for.
pub fn warn(tag: &str, message: &str) -> (r: String)
    ensures
        r@ == report(WARN@, "!"@, WARN@, tag@, message@),
{
    report_line(WARN, "!", WARN, tag, message)
}

} // verus!
