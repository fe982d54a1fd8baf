//! Lines of output: how one is composed from a message, and how it is
//! turned into the characters that are written.

use colored::Color as Ansi;
use colored::Colorize;
use vstd::prelude::*;
use vstd::string::*;

use crate::color::Color;

verus! {

/// One of the two standard streams that output goes to.
#[derive(Clone, Copy, Debug, PartialEq, Eq, Structural)]
pub enum Stream {
    Stdout,
    Stderr,
}

/// One write to a standard stream.
#[derive(Clone, Debug, PartialEq, Eq)]
pub struct Line {
    /// The stream to write to.
    pub stream: Stream,
    /// The characters of the line, before any colour is applied.
    pub text: String,
    /// The colour of the whole line; `None` on a stream that is no terminal.
    pub color: Option<Color>,
    /// Whether a line terminator follows the text.
    pub newline: bool,
}

/// What a [`Line`] holds, with the text as a sequence of characters.
pub struct LineView {
    pub stream: Stream,
    pub text: Seq<char>,
    pub color: Option<Color>,
    pub newline: bool,
}

impl View for Line {
    type V = LineView;

    open spec fn view(&self) -> LineView {
        LineView { stream: self.stream, text: self.text@, color: self.color, newline: self.newline }
    }
}

impl DeepView for Line {
    type V = LineView;

    open spec fn deep_view(&self) -> LineView {
        self@
    }
}

impl LineView {
    /// What follows the text: a line feed, or nothing.
    pub open spec fn terminator(self) -> Seq<char> {
        if self.newline {
            seq!['\n']
        } else {
            Seq::empty()
        }
    }

    /// The characters written for a line without colour.
    pub open spec fn plain(self) -> Seq<char> {
        self.text + self.terminator()
    }
}

/// The marker that stands for one level of nesting.
pub open spec fn indent_marker() -> Seq<char> {
    seq!['|', ' ', ' ', ' ']
}

/// `depth` markers in a row.
pub open spec fn padding(depth: nat) -> Seq<char>
    decreases depth,
{
    if depth == 0 {
        Seq::empty()
    } else {
        padding((depth - 1) as nat) + indent_marker()
    }
}

/// The characters of a prefix, none where there is no prefix.
pub open spec fn glyph(prefix: Option<Seq<char>>) -> Seq<char> {
    match prefix {
        Some(p) => p,
        None => Seq::empty(),
    }
}

/// A message as a terminal shows it: the padding of its depth, the prefix if
/// there is one, a space, and the message.
pub open spec fn decorated(depth: nat, prefix: Option<Seq<char>>, msg: Seq<char>) -> Seq<char> {
    padding(depth) + glyph(prefix) + seq![' '] + msg
}

/// The padding of a depth is four characters for each level, and each group
/// of four is the marker.
pub proof fn lemma_padding_repeats_marker(depth: nat)
    ensures
        padding(depth).len() == 4 * depth,
        forall|i: int| 0 <= i < 4 * depth ==> #[trigger] padding(depth)[i] == indent_marker()[i % 4],
    decreases depth,
{
    if depth > 0 {
        lemma_padding_repeats_marker((depth - 1) as nat);
    }
}

/// A decorated message starts with exactly `depth` markers; the prefix, a
/// space and the message follow them, and nothing else.
pub proof fn lemma_decorated_layout(depth: nat, prefix: Option<Seq<char>>, msg: Seq<char>)
    ensures
        decorated(depth, prefix, msg).len() == 4 * depth + glyph(prefix).len() + 1 + msg.len(),
        decorated(depth, prefix, msg).subrange(0, 4 * depth as int) == padding(depth),
        decorated(depth, prefix, msg).subrange(
            4 * depth as int,
            decorated(depth, prefix, msg).len() as int,
        ) == glyph(prefix) + seq![' '] + msg,
        forall|i: int|
            0 <= i < 4 * depth ==> #[trigger] decorated(depth, prefix, msg)[i] == indent_marker()[i
                % 4],
{
    lemma_padding_repeats_marker(depth);
}

/// The padding of `depth` levels of nesting.
pub fn make_padding(depth: usize) -> (pad: String)
    ensures
        pad@ == padding(depth as nat),
{
    let mut pad = String::new();
    let mut done: usize = 0;
    while done < depth
        invariant
            done <= depth,
            pad@ == padding(done as nat),
        decreases depth - done,
    {
        proof {
            reveal_strlit("|   ");
        }
        pad.append("|   ");
        done = done + 1;
    }
    pad
}

/// Composes the text that a terminal shows for `msg`.
pub fn decorate(depth: usize, prefix: &Option<String>, msg: &str) -> (text: String)
    ensures
        text@ == decorated(depth as nat, prefix.deep_view(), msg@),
{
    let mut text = make_padding(depth);
    match prefix {
        Some(p) => {
            text.append(p.as_str());
        },
        None => {},
    }
    proof {
        reveal_strlit(" ");
    }
    text.append(" ");
    text.append(msg);
    text
}

/// Whether no character of `text` is the escape character.
pub open spec fn free_of_escapes(text: Seq<char>) -> bool {
    forall|i: int| 0 <= i < text.len() ==> text[i] != '\x1b'
}

/// Whether `text` stands in `whole`, unbroken, from position `at` on.
pub open spec fn stands_at(text: Seq<char>, whole: Seq<char>, at: int) -> bool {
    0 <= at <= whole.len() - text.len() && whole.subrange(at, at + text.len()) == text
}

/// Whether `text` stands somewhere in `whole`, unbroken.
pub open spec fn occurs_in(text: Seq<char>, whole: Seq<char>) -> bool {
    exists|at: int| stands_at(text, whole, at)
}

/// Calls `Colorize::color` of the crate colored on `text`, with the colour of
/// that crate that has the same name or the same three components, and
/// formats what it returns. Whether escape sequences are added, and which,
/// depends on the environment of the process. Either way that crate writes
/// the text itself or the text between a style sequence and a reset
/// sequence, and inside the text it only ever inserts, and only behind a
/// reset sequence that the text holds already. So the result is never
/// shorter than the text, and a text without an escape character stands in
/// it unbroken. No more is claimed.
#[verifier::external_body]
fn paint(text: &str, color: Color) -> (painted: String)
    ensures
        painted@.len() >= text@.len(),
        free_of_escapes(text@) ==> occurs_in(text@, painted@),
{
    let ansi = match color {
        Color::Black => Ansi::Black, Color::Red => Ansi::Red,
        Color::Green => Ansi::Green, Color::Yellow => Ansi::Yellow,
        Color::Blue => Ansi::Blue, Color::Magenta => Ansi::Magenta,
        Color::Cyan => Ansi::Cyan, Color::White => Ansi::White,
        Color::BrightBlack => Ansi::BrightBlack, Color::BrightRed => Ansi::BrightRed,
        Color::BrightGreen => Ansi::BrightGreen, Color::BrightYellow => Ansi::BrightYellow,
        Color::BrightBlue => Ansi::BrightBlue, Color::BrightMagenta => Ansi::BrightMagenta,
        Color::BrightCyan => Ansi::BrightCyan, Color::BrightWhite => Ansi::BrightWhite,
        Color::TrueColor { r, g, b } => Ansi::TrueColor { r, g, b },
    };
    text.color(ansi).to_string()
}

impl Line {
    /// What is written once the text has been painted: the painted text and
    /// the terminator of this line.
    pub fn terminated(&self, painted: String) -> (out: String)
        ensures
            out@ == painted@ + self@.terminator(),
    {
        let mut out = painted;
        if self.newline {
            proof {
                reveal_strlit("\n");
            }
            out.append("\n");
        }
        out
    }

    /// The characters to write for this line: the text, in its colour if it
    /// has one, then the terminator. A line without colour is written as it
    /// is. What a colour adds is decided by the terminal support found at
    /// run time: it is never less than the text, the terminator comes last,
    /// and a text without an escape character stands unbroken before the
    /// terminator.
    pub fn render(&self) -> (out: String)
        ensures
            self.color is None ==> out@ == self@.plain(),
            out@.len() >= self@.plain().len(),
            out@.subrange(out@.len() - self@.terminator().len(), out@.len() as int)
                == self@.terminator(),
            free_of_escapes(self@.text) ==> occurs_in(
                self@.text,
                out@.subrange(0, out@.len() - self@.terminator().len()),
            ),
    {
        let painted = match self.color {
            Some(color) => paint(self.text.as_str(), color),
            None => self.text.clone(),
        };
        proof {
            if self.color is None {
                assert(stands_at(self@.text, painted@, 0)) by {
                    assert(painted@.subrange(0, self@.text.len() as int) =~= self@.text);
                }
            }
            assert((painted@ + self@.terminator()).subrange(0, painted@.len() as int)
                =~= painted@);
        }
        self.terminated(painted)
    }
}

} // verus!
