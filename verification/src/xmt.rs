//! The formatter: which line each operation writes, where, and in which
//! style; how a structured value is written out; and both halves of each
//! prompt, the line that asks and the reading of the answer.

use std::fmt::Display;
use vstd::prelude::*;
use vstd::string::*;

use crate::color::Color;
use crate::config::{Config, ConfigView, Level, OutputMode, Style, StyleView};
use crate::line::{decorate, decorated, padding, Line, LineView, Stream};
use crate::text::{
    decimal, decimal_string, lemma_decimal_reads_back, number_in, parse_number, trim, trimmed,
};

verus! {

/// The style of a level that the theme has no entry for.
pub open spec fn default_style(level: Level) -> StyleView {
    match level {
        Level::Normal | Level::Prompt | Level::Detail => StyleView {
            prefix: Some(seq!['+']),
            color: Color::White,
        },
        Level::Success => StyleView { prefix: Some(seq!['✔']), color: Color::Green },
        Level::Warn => StyleView { prefix: Some(seq!['!']), color: Color::Yellow },
        Level::Error => StyleView { prefix: Some(seq!['!']), color: Color::Red },
    }
}

/// Builds the style of a level that the theme has no entry for.
pub fn builtin_style(level: Level) -> (style: Style)
    ensures
        style@ == default_style(level),
{
    proof {
        reveal_strlit("+");
        reveal_strlit("✔");
        reveal_strlit("!");
    }
    let style = match level {
        Level::Normal | Level::Prompt | Level::Detail => Style {
            prefix: Some("+".to_owned()),
            color: Color::White,
        },
        Level::Success => Style { prefix: Some("✔".to_owned()), color: Color::Green },
        Level::Warn => Style { prefix: Some("!".to_owned()), color: Color::Yellow },
        Level::Error => Style { prefix: Some("!".to_owned()), color: Color::Red },
    };
    assert(style@.prefix->0 =~= default_style(level).prefix->0);
    style
}

/// How a structured value is to be written out.
#[derive(Clone, Copy, Debug, PartialEq, Eq, Structural)]
pub enum Rendering {
    /// As JSON over several indented lines.
    JsonPretty,
    /// As JSON on one line.
    JsonCompact,
    /// As an indented tree.
    Tree,
    /// As the value displays itself.
    Text,
}

/// Why a prompt was refused.
#[derive(Clone, Copy, Debug, PartialEq, Eq, Structural)]
pub enum PromptError {
    /// Standard output is no terminal, so nobody can be asked.
    Unsupported,
}

impl PromptError {
    /// The reason in words.
    pub fn message(&self) -> (text: &'static str)
        ensures
            text@ == "interactive features are disabled when not in TTY mode"@,
    {
        "interactive features are disabled when not in TTY mode"
    }
}

/// What an answer to a pick leads to.
#[derive(Clone, Debug, PartialEq, Eq)]
pub enum PickStep {
    /// The item at this position was chosen.
    Chosen(usize),
    /// The answer chose nothing: write the line, if there is one, and ask
    /// again.
    Retry(Option<Line>),
}

/// What a [`PickStep`] holds, with the line by its view.
pub enum PickStepView {
    Chosen(usize),
    Retry(Option<LineView>),
}

impl View for PickStep {
    type V = PickStepView;

    open spec fn view(&self) -> PickStepView {
        match self {
            PickStep::Chosen(index) => PickStepView::Chosen(*index),
            PickStep::Retry(line) => PickStepView::Retry(line.deep_view()),
        }
    }
}

/// The text that asks for a pick.
pub open spec fn pick_question() -> Seq<char> {
    "Enter your pick: "@
}

/// What is said of a number that stands for no item.
pub open spec fn out_of_bounds_message() -> Seq<char> {
    "pick is out of bounds"@
}

/// What is said of an answer that is no number.
pub open spec fn not_a_number_message() -> Seq<char> {
    "pick must be a positive integer"@
}

/// What follows a yes-or-no question: the two answers, the default in
/// upper case.
pub open spec fn yn_hint(default_yes: bool) -> Seq<char> {
    if default_yes {
        " [Y/n] - "@
    } else {
        " [y/N] - "@
    }
}

/// The line of a menu for the item at `index`: its number, counted from one,
/// in square brackets, and its label.
pub open spec fn entry(index: nat, label: Seq<char>) -> Seq<char> {
    seq!['['] + decimal(index + 1) + "] - "@ + label
}

/// The lower-case form of an ASCII capital; any other character itself.
pub open spec fn ascii_lower(c: char) -> char {
    if 'A' <= c && c <= 'Z' {
        (c as int + 32) as char
    } else {
        c
    }
}

/// `s` with each ASCII capital in lower case.
pub open spec fn lowercase(s: Seq<char>) -> Seq<char> {
    s.map_values(|c: char| ascii_lower(c))
}

/// Whether an answer means yes, once the blanks around it are gone. The
/// case of its letters does not count. Where yes is the default, only the
/// one letter `n` means no; where no is the default, only the one letter
/// `y` means yes.
pub open spec fn yes_decided(kept: Seq<char>, default_yes: bool) -> bool {
    if default_yes {
        lowercase(kept) != seq!['n']
    } else {
        lowercase(kept) == seq!['y']
    }
}

/// Whether an answer to a yes-or-no question means yes: what is left of it
/// without the blanks around it decides.
pub open spec fn affirmed(answer: Seq<char>, default_yes: bool) -> bool {
    yes_decided(trimmed(answer), default_yes)
}

/// Whether `label` is a text that `item` displays itself as.
pub open spec fn displayed<E: Display>(item: &E, label: Seq<char>) -> bool {
    exists|text: String| text@ == label && #[trigger] to_string_from_display_ensures::<E>(item, text)
}

/// Whether `labels` holds, for each item in order, a text that the item
/// displays itself as.
pub open spec fn labels_of<E: Display>(items: Seq<E>, labels: Seq<Seq<char>>) -> bool {
    &&& labels.len() == items.len()
    &&& forall|i: int| 0 <= i < items.len() ==> displayed(&#[trigger] items[i], labels[i])
}

/// What a formatter holds: its configuration, how deep it is nested, and
/// whether each of the two streams was a terminal when it was made.
pub struct XMTView {
    pub cfg: ConfigView,
    pub indent: nat,
    pub stdout_tty: bool,
    pub stderr_tty: bool,
}

impl XMTView {
    /// The style in force for a level: the entry of the theme, or the
    /// built-in style where the theme has none.
    pub open spec fn style(self, level: Level) -> StyleView {
        if self.cfg.theme.contains_key(level) {
            self.cfg.theme[level]
        } else {
            default_style(level)
        }
    }

    /// Whether a stream was a terminal when the formatter was made.
    pub open spec fn interactive(self, stream: Stream) -> bool {
        match stream {
            Stream::Stdout => self.stdout_tty,
            Stream::Stderr => self.stderr_tty,
        }
    }

    /// Whether leveled messages are dropped.
    pub open spec fn silent(self) -> bool {
        self.cfg.output == OutputMode::JSON
    }

    /// The line written for a message: none in JSON mode; on a terminal the
    /// decorated message in the colour given; elsewhere the bare message.
    pub open spec fn shown(
        self,
        stream: Stream,
        msg: Seq<char>,
        prefix: Option<Seq<char>>,
        color: Color,
        newline: bool,
    ) -> Option<LineView> {
        if self.silent() {
            None
        } else if self.interactive(stream) {
            Some(
                LineView {
                    stream,
                    text: decorated(self.indent, prefix, msg),
                    color: Some(color),
                    newline,
                },
            )
        } else {
            Some(LineView { stream, text: msg, color: None, newline })
        }
    }

    /// The line written for a message of a level, in the style in force.
    pub open spec fn leveled(self, level: Level, stream: Stream, msg: Seq<char>) -> Option<
        LineView,
    > {
        self.shown(stream, msg, self.style(level).prefix, self.style(level).color, true)
    }

    /// The line of an ordinary message.
    pub open spec fn print(self, msg: Seq<char>) -> Option<LineView> {
        self.leveled(Level::Normal, Stream::Stdout, msg)
    }

    /// The line of a detail: one on a terminal only.
    pub open spec fn detail(self, msg: Seq<char>) -> Option<LineView> {
        if self.stdout_tty {
            self.leveled(Level::Detail, Stream::Stdout, msg)
        } else {
            None
        }
    }

    /// The line of a report of success.
    pub open spec fn success(self, msg: Seq<char>) -> Option<LineView> {
        self.leveled(Level::Success, Stream::Stdout, msg)
    }

    /// The line of a warning.
    pub open spec fn warn(self, msg: Seq<char>) -> Option<LineView> {
        self.leveled(Level::Warn, Stream::Stdout, msg)
    }

    /// The line of an error, which goes to standard error.
    pub open spec fn error(self, msg: Seq<char>) -> Option<LineView> {
        self.leveled(Level::Error, Stream::Stderr, msg)
    }

    /// The line that asks: the text in the style of prompts, on standard
    /// output, without a line terminator.
    pub open spec fn asked(self, msg: Seq<char>) -> Option<LineView> {
        self.shown(
            Stream::Stdout,
            msg,
            self.style(Level::Prompt).prefix,
            self.style(Level::Prompt).color,
            false,
        )
    }

    /// How a structured value is written out: as JSON where that is the
    /// mode or standard output is no terminal, on one line in the second
    /// case; else as the mode says.
    pub open spec fn out(self) -> Rendering {
        if self.silent() || !self.stdout_tty {
            if self.stdout_tty {
                Rendering::JsonPretty
            } else {
                Rendering::JsonCompact
            }
        } else if self.cfg.output == OutputMode::Tree {
            Rendering::Tree
        } else {
            Rendering::Text
        }
    }

    /// The same formatter one level deeper.
    pub open spec fn nest(self) -> XMTView {
        XMTView {
            cfg: self.cfg,
            indent: self.indent + 1,
            stdout_tty: self.stdout_tty,
            stderr_tty: self.stderr_tty,
        }
    }

    /// The lines of a menu: the heading, then one entry for each label, each
    /// as an ordinary message; none in JSON mode.
    pub open spec fn menu(self, msg: Seq<char>, labels: Seq<Seq<char>>) -> Seq<LineView> {
        if self.silent() {
            Seq::empty()
        } else {
            Seq::new(
                labels.len() + 1,
                |i: int|
                    if i == 0 {
                        self.print(msg)->0
                    } else {
                        self.print(entry((i - 1) as nat, labels[i - 1]))->0
                    },
            )
        }
    }

    /// What an answer to a pick among `count` items leads to: the item whose
    /// number, counted from one, the answer is; else the line of an error,
    /// one for a number that stands for no item and another for an answer
    /// that is no number.
    pub open spec fn pick_step(self, answer: Seq<char>, count: nat) -> PickStepView {
        self.pick_decided(trimmed(answer), count)
    }

    /// What an answer to a pick among `count` items leads to, once the
    /// blanks around it are gone.
    pub open spec fn pick_decided(self, kept: Seq<char>, count: nat) -> PickStepView {
        match number_in(kept) {
            Some(number) => if 1 <= number <= count {
                PickStepView::Chosen((number - 1) as usize)
            } else {
                PickStepView::Retry(self.error(out_of_bounds_message()))
            },
            None => PickStepView::Retry(self.error(not_a_number_message())),
        }
    }
}

/// Calls `atty::is` of the crate atty for the stream. The answer is a fact
/// about the process at the moment of the call, so nothing is claimed of it.
#[verifier::external_body]
fn is_interactive(stream: Stream) -> (tty: bool) {
    match stream {
        Stream::Stdout => atty::is(atty::Stream::Stdout),
        Stream::Stderr => atty::is(atty::Stream::Stderr),
    }
}

/// The formatter.
#[derive(Clone, Debug, PartialEq, Eq)]
pub struct XMT {
    cfg: Config,
    indent_level: usize,
    stdout_tty: bool,
    stderr_tty: bool,
}

impl View for XMT {
    type V = XMTView;

    closed spec fn view(&self) -> XMTView {
        XMTView {
            cfg: self.cfg@,
            indent: self.indent_level as nat,
            stdout_tty: self.stdout_tty,
            stderr_tty: self.stderr_tty,
        }
    }
}

impl Default for XMT {
    /// A formatter with text output and an empty theme, at depth zero.
    fn default() -> (xmt: XMT)
        ensures
            xmt@.cfg == ConfigView::initial(),
            xmt@.indent == 0,
    {
        XMT::new(Config::default())
    }
}

impl XMT {
    /// A formatter at depth zero that takes each stream for what the caller
    /// says it is.
    pub fn with_terminal(cfg: Config, stdout_tty: bool, stderr_tty: bool) -> (xmt: XMT)
        ensures
            xmt@ == (XMTView { cfg: cfg@, indent: 0, stdout_tty, stderr_tty }),
    {
        XMT { cfg, indent_level: 0, stdout_tty, stderr_tty }
    }

    /// A formatter at depth zero. Whether each of the two streams is a
    /// terminal is found out now, once, and kept.
    pub fn new(cfg: Config) -> (xmt: XMT)
        ensures
            xmt@.cfg == cfg@,
            xmt@.indent == 0,
    {
        let stdout_tty = is_interactive(Stream::Stdout);
        let stderr_tty = is_interactive(Stream::Stderr);
        XMT::with_terminal(cfg, stdout_tty, stderr_tty)
    }

    /// The configuration.
    pub fn config(&self) -> (cfg: &Config)
        ensures
            cfg@ == self@.cfg,
    {
        &self.cfg
    }

    /// How deep the formatter is nested.
    pub fn indent_level(&self) -> (depth: usize)
        ensures
            depth == self@.indent,
    {
        self.indent_level
    }

    /// Whether standard output was a terminal when the formatter was made.
    pub fn stdout_tty(&self) -> (tty: bool)
        ensures
            tty == self@.stdout_tty,
    {
        self.stdout_tty
    }

    /// Whether standard error was a terminal when the formatter was made.
    pub fn stderr_tty(&self) -> (tty: bool)
        ensures
            tty == self@.stderr_tty,
    {
        self.stderr_tty
    }

    fn is_json_output(&self) -> (json: bool)
        ensures
            json == self@.silent(),
    {
        self.cfg.output == OutputMode::JSON
    }

    /// The style in force for a level: the entry of the theme, or the
    /// built-in style where the theme has none.
    pub fn style(&self, level: Level) -> (style: Style)
        ensures
            style@ == self@.style(level),
            !self@.cfg.theme.contains_key(level) ==> style@ == default_style(level),
    {
        match self.cfg.theme.get(level) {
            Some(entry) => {
                let prefix = match &entry.prefix {
                    Some(p) => Some(p.clone()),
                    None => None,
                };
                Style { prefix, color: entry.color }
            },
            None => builtin_style(level),
        }
    }

    fn compose(
        &self,
        stream: Stream,
        tty: bool,
        msg: &str,
        prefix_marker: &Option<String>,
        color: Color,
        newline: bool,
    ) -> (line: Option<Line>)
        requires
            tty == self@.interactive(stream),
        ensures
            line.deep_view() == self@.shown(stream, msg@, prefix_marker.deep_view(), color, newline),
    {
        if self.is_json_output() {
            return None;
        }
        if tty {
            let text = decorate(self.indent_level, prefix_marker, msg);
            Some(Line { stream, text, color: Some(color), newline })
        } else {
            Some(Line { stream, text: msg.to_owned(), color: None, newline })
        }
    }

    fn print_sameline(&self, msg: &str, prefix_marker: &Option<String>, color: Color) -> (line:
        Option<Line>)
        ensures
            line.deep_view() == self@.shown(
                Stream::Stdout,
                msg@,
                prefix_marker.deep_view(),
                color,
                false,
            ),
    {
        self.compose(Stream::Stdout, self.stdout_tty, msg, prefix_marker, color, false)
    }

    fn print_stdout(&self, msg: &str, prefix_marker: &Option<String>, color: Color) -> (line:
        Option<Line>)
        ensures
            line.deep_view() == self@.shown(
                Stream::Stdout,
                msg@,
                prefix_marker.deep_view(),
                color,
                true,
            ),
    {
        self.compose(Stream::Stdout, self.stdout_tty, msg, prefix_marker, color, true)
    }

    fn print_stderr(&self, msg: &str, prefix_marker: &Option<String>, color: Color) -> (line:
        Option<Line>)
        ensures
            line.deep_view() == self@.shown(
                Stream::Stderr,
                msg@,
                prefix_marker.deep_view(),
                color,
                true,
            ),
    {
        self.compose(Stream::Stderr, self.stderr_tty, msg, prefix_marker, color, true)
    }

    /// The line of an ordinary message, for standard output: none in JSON
    /// mode; on a terminal the message behind its padding and prefix, in the
    /// colour of the level; elsewhere the bare message.
    pub fn print(&self, msg: &str) -> (line: Option<Line>)
        ensures
            line.deep_view() == self@.print(msg@),
    {
        let style = self.style(Level::Normal);
        self.print_stdout(msg, &style.prefix, style.color)
    }

    /// The line of a detail, for standard output: as that of an ordinary
    /// message on a terminal outside JSON mode, and none anywhere else.
    pub fn detail(&self, msg: &str) -> (line: Option<Line>)
        ensures
            line.deep_view() == self@.detail(msg@),
    {
        let style = self.style(Level::Detail);
        if self.is_json_output() || !self.stdout_tty {
            return None;
        }
        self.print_stdout(msg, &style.prefix, style.color)
    }

    /// The line of a report of success, for standard output.
    pub fn success(&self, msg: &str) -> (line: Option<Line>)
        ensures
            line.deep_view() == self@.success(msg@),
    {
        let style = self.style(Level::Success);
        self.print_stdout(msg, &style.prefix, style.color)
    }

    /// How a structured value is to be written to standard output.
    pub fn out(&self) -> (form: Rendering)
        ensures
            form == self@.out(),
    {
        if self.is_json_output() || !self.stdout_tty {
            if self.stdout_tty {
                Rendering::JsonPretty
            } else {
                Rendering::JsonCompact
            }
        } else {
            match self.cfg.output {
                OutputMode::Tree => Rendering::Tree,
                _ => Rendering::Text,
            }
        }
    }

    /// The line that carries a structured value once it is rendered: the
    /// rendered text on standard output, without colour, ended by a line
    /// terminator.
    pub fn out_line(rendered: String) -> (line: Line)
        ensures
            line@ == (LineView {
                stream: Stream::Stdout,
                text: rendered@,
                color: None,
                newline: true,
            }),
    {
        Line { stream: Stream::Stdout, text: rendered, color: None, newline: true }
    }

    /// The line of a warning, for standard output.
    pub fn warn(&self, msg: &str) -> (line: Option<Line>)
        ensures
            line.deep_view() == self@.warn(msg@),
    {
        let style = self.style(Level::Warn);
        self.print_stdout(msg, &style.prefix, style.color)
    }

    /// The line of an error, for standard error.
    pub fn error(&self, msg: &str) -> (line: Option<Line>)
        ensures
            line.deep_view() == self@.error(msg@),
    {
        let style = self.style(Level::Error);
        self.print_stderr(msg, &style.prefix, style.color)
    }

    /// A formatter like this one, one level deeper. This one stays as it is.
    pub fn nest(&self) -> (nested: XMT)
        requires
            self@.indent < usize::MAX,
        ensures
            nested@ == self@.nest(),
    {
        XMT {
            cfg: self.cfg.duplicate(),
            indent_level: self.indent_level + 1,
            stdout_tty: self.stdout_tty,
            stderr_tty: self.stderr_tty,
        }
    }

    /// The line that asks a yes-or-no question, to be written before the
    /// answer is read. Nobody is asked where standard output is no terminal.
    pub fn prompt_yn(&self, msg: &str, default: bool) -> (asked: Result<Option<Line>, PromptError>)
        ensures
            asked is Ok <==> self@.stdout_tty,
            asked matches Ok(line) ==> line.deep_view() == self@.asked(msg@ + yn_hint(default)),
            asked matches Err(e) ==> e == PromptError::Unsupported,
    {
        if !self.stdout_tty {
            return Err(PromptError::Unsupported);
        }
        let style = self.style(Level::Prompt);
        let mut question = msg.to_owned();
        if default {
            question.append(" [Y/n] - ");
        } else {
            question.append(" [y/N] - ");
        }
        Ok(self.print_sameline(question.as_str(), &style.prefix, style.color))
    }

    /// Reads the answer to a yes-or-no question.
    pub fn answer_yn(input: &str, default: bool) -> (yes: bool)
        ensures
            yes == affirmed(input@, default),
    {
        XMT::decides_yes(trim(input), default)
    }

    /// Tells whether an answer means yes, given what is left of it without
    /// the blanks around it.
    pub fn decides_yes(kept: &str, default: bool) -> (yes: bool)
        ensures
            yes == yes_decided(kept@, default),
    {
        let one_letter = kept.unicode_len() == 1;
        if one_letter {
            let c = kept.get_char(0);
            proof {
                let folded = lowercase(kept@);
                assert(folded =~= seq![ascii_lower(c)]);
                assert(seq!['n'][0] == 'n' && seq!['y'][0] == 'y');
            }
            if default {
                !(c == 'n' || c == 'N')
            } else {
                c == 'y' || c == 'Y'
            }
        } else {
            assert(seq!['n'].len() == 1 && seq!['y'].len() == 1);
            default
        }
    }

    /// The line that asks for a text, to be written before the answer is
    /// read. Nobody is asked where standard output is no terminal.
    pub fn prompt(&self, msg: &str) -> (asked: Result<Option<Line>, PromptError>)
        ensures
            asked is Ok <==> self@.stdout_tty,
            asked matches Ok(line) ==> line.deep_view() == self@.asked(msg@),
            asked matches Err(e) ==> e == PromptError::Unsupported,
    {
        if !self.stdout_tty {
            return Err(PromptError::Unsupported);
        }
        let style = self.style(Level::Prompt);
        Ok(self.print_sameline(msg, &style.prefix, style.color))
    }

    /// Reads the answer to a prompt: the text without the blanks around it.
    pub fn answer(input: &str) -> (text: String)
        ensures
            text@ == trimmed(input@),
    {
        trim(input).to_owned()
    }

    /// The lines of a menu, in order: the heading, then each label behind
    /// its number.
    pub fn menu(&self, msg: &str, labels: &Vec<String>) -> (lines: Vec<Line>)
        ensures
            lines.deep_view() == self@.menu(msg@, labels.deep_view()),
    {
        let ghost expected = self@.menu(msg@, labels.deep_view());
        let mut lines: Vec<Line> = Vec::new();
        match self.print(msg) {
            Some(line) => {
                lines.push(line);
            },
            None => {
                return lines;
            },
        }
        let mut at: usize = 0;
        while at < labels.len()
            invariant
                !self@.silent(),
                at <= labels.len(),
                lines@.len() == at + 1,
                expected == self@.menu(msg@, labels.deep_view()),
                forall|k: int| 0 <= k < lines@.len() ==> (#[trigger] lines@[k])@ == expected[k],
            decreases labels.len() - at,
        {
            let mut text = String::new();
            proof {
                reveal_strlit("[");
            }
            text.append("[");
            text.append(decimal_string(at + 1).as_str());
            text.append("] - ");
            text.append(labels[at].as_str());
            assert(text@ =~= entry(at as nat, labels.deep_view()[at as int]));
            match self.print(text.as_str()) {
                Some(line) => {
                    lines.push(line);
                },
                None => {},
            }
            at = at + 1;
        }
        lines
    }

    /// The menu of a pick among `items`, to be written before the first
    /// answer is asked for. Nobody is asked where standard output is no
    /// terminal.
    pub fn pick<E: Display>(&self, msg: &str, items: &[E]) -> (shown: Result<
        Vec<Line>,
        PromptError,
    >)
        ensures
            shown is Ok <==> self@.stdout_tty,
            shown matches Ok(lines) ==> exists|labels: Seq<Seq<char>>|
                labels_of(items@, labels) && lines.deep_view() == #[trigger] self@.menu(
                    msg@,
                    labels,
                ),
            shown matches Err(e) ==> e == PromptError::Unsupported,
    {
        if !self.stdout_tty {
            return Err(PromptError::Unsupported);
        }
        let mut labels: Vec<String> = Vec::new();
        let mut at: usize = 0;
        while at < items.len()
            invariant
                at <= items.len(),
                labels@.len() == at,
                forall|i: int| 0 <= i < at ==> displayed(&#[trigger] items@[i], labels@[i]@),
            decreases items.len() - at,
        {
            let label = items[at].to_string();
            labels.push(label);
            at = at + 1;
        }
        let lines = self.menu(msg, &labels);
        Ok(lines)
    }

    /// The line that asks for the number of an item.
    pub fn pick_prompt(&self) -> (asked: Result<Option<Line>, PromptError>)
        ensures
            asked is Ok <==> self@.stdout_tty,
            asked matches Ok(line) ==> line.deep_view() == self@.asked(pick_question()),
            asked matches Err(e) ==> e == PromptError::Unsupported,
    {
        self.prompt("Enter your pick: ")
    }

    /// Reads the answer to a pick among `count` items.
    pub fn answer_pick(&self, input: &str, count: usize) -> (step: PickStep)
        ensures
            step@ == self@.pick_step(input@, count as nat),
    {
        self.decides_pick(trim(input), count)
    }

    /// Tells what an answer to a pick among `count` items leads to, given
    /// what is left of it without the blanks around it.
    pub fn decides_pick(&self, kept: &str, count: usize) -> (step: PickStep)
        ensures
            step@ == self@.pick_decided(kept@, count as nat),
    {
        match parse_number(kept) {
            Some(number) => {
                if 1 <= number && number <= count {
                    PickStep::Chosen(number - 1)
                } else {
                    PickStep::Retry(self.error("pick is out of bounds"))
                }
            },
            None => PickStep::Retry(self.error("pick must be a positive integer")),
        }
    }
}

/// A level without an entry in the theme gets its built-in style: a white
/// plus sign for ordinary messages, prompts and details, a green check mark
/// for success, a yellow exclamation mark for warnings and a red one for
/// errors. A level with an entry gets that entry.
pub proof fn lemma_style_in_force(x: XMTView, level: Level)
    ensures
        !x.cfg.theme.contains_key(level) ==> x.style(level) == default_style(level),
        x.cfg.theme.contains_key(level) ==> x.style(level) == x.cfg.theme[level],
        default_style(Level::Normal) == (StyleView { prefix: Some(seq!['+']), color: Color::White }),
        default_style(Level::Prompt) == default_style(Level::Normal),
        default_style(Level::Detail) == default_style(Level::Normal),
        default_style(Level::Success) == (StyleView {
            prefix: Some(seq!['✔']),
            color: Color::Green,
        }),
        default_style(Level::Warn) == (StyleView { prefix: Some(seq!['!']), color: Color::Yellow }),
        default_style(Level::Error) == (StyleView { prefix: Some(seq!['!']), color: Color::Red }),
{
}

/// Nesting adds one level each time and changes nothing else: nested twice,
/// a formatter is two levels deeper, with the same configuration and the
/// same view of the streams.
pub proof fn lemma_nest_adds_one(x: XMTView)
    ensures
        x.nest().indent == x.indent + 1,
        x.nest().nest().indent == x.indent + 2,
        x.nest().nest() == (XMTView { indent: x.indent + 2, ..x }),
{
}

/// On a terminal, outside JSON mode, the line of a message starts with as
/// many indent markers as the formatter is deep; the prefix in force, a
/// space and the message follow, and the line has the colour in force.
pub proof fn lemma_line_on_terminal(x: XMTView, level: Level, stream: Stream, msg: Seq<char>)
    requires
        !x.silent(),
        x.interactive(stream),
    ensures
        x.leveled(level, stream, msg) matches Some(line) && {
            &&& line.stream == stream
            &&& line.newline
            &&& line.color == Some(x.style(level).color)
            &&& line.text.len() == 4 * x.indent + crate::line::glyph(x.style(level).prefix).len()
                + 1 + msg.len()
            &&& line.text.subrange(0, 4 * x.indent as int) == padding(x.indent)
            &&& line.text.subrange(4 * x.indent as int, line.text.len() as int)
                == crate::line::glyph(x.style(level).prefix) + seq![' '] + msg
        },
{
    crate::line::lemma_decorated_layout(x.indent, x.style(level).prefix, msg);
}

/// Off a terminal, outside JSON mode, the line of a message is the message
/// alone, without colour.
pub proof fn lemma_line_off_terminal(x: XMTView, level: Level, stream: Stream, msg: Seq<char>)
    requires
        !x.silent(),
        !x.interactive(stream),
    ensures
        x.leveled(level, stream, msg) == Some(
            LineView { stream, text: msg, color: None, newline: true },
        ),
{
}

/// In JSON mode no leveled operation writes a line, and a structured value
/// is written as JSON.
pub proof fn lemma_json_mode(x: XMTView, msg: Seq<char>)
    requires
        x.cfg.output == OutputMode::JSON,
    ensures
        x.print(msg) is None,
        x.detail(msg) is None,
        x.success(msg) is None,
        x.warn(msg) is None,
        x.error(msg) is None,
        x.out() == Rendering::JsonPretty || x.out() == Rendering::JsonCompact,
        x.out() == Rendering::JsonPretty <==> x.stdout_tty,
{
}

/// Where standard output is no terminal, a structured value is written as
/// JSON on one line, whatever the mode; on a terminal it is written as the
/// mode says.
pub proof fn lemma_out_by_terminal(x: XMTView)
    ensures
        !x.stdout_tty ==> x.out() == Rendering::JsonCompact,
        x.stdout_tty && x.cfg.output == OutputMode::JSON ==> x.out() == Rendering::JsonPretty,
        x.stdout_tty && x.cfg.output == OutputMode::Tree ==> x.out() == Rendering::Tree,
        x.stdout_tty && x.cfg.output == OutputMode::Text ==> x.out() == Rendering::Text,
{
}

/// Where yes is the default, an answer means no only if, without the blanks
/// around it, it is the one letter `n`, in either case; where no is the
/// default, it means yes only if it is the one letter `y`, in either case.
/// So a whole word, such as `no`, leaves the default in force.
pub proof fn lemma_one_letter_decides(answer: Seq<char>)
    ensures
        !affirmed(answer, true) <==> trimmed(answer) == seq!['n'] || trimmed(answer) == seq!['N'],
        affirmed(answer, false) <==> trimmed(answer) == seq!['y'] || trimmed(answer) == seq!['Y'],
        trimmed(answer).len() != 1 ==> affirmed(answer, true) && !affirmed(answer, false),
{
    let kept = trimmed(answer);
    let folded = lowercase(kept);
    if kept.len() == 1 {
        let c = kept[0];
        assert(folded =~= seq![ascii_lower(c)]);
        assert(seq!['n'][0] == 'n' && seq!['y'][0] == 'y');
        assert(kept =~= seq![c]);
    } else {
        assert(folded.len() != 1);
    }
}

/// An answer that is the number of an item, as the menu shows it, with or
/// without blanks around it, chooses that item.
pub proof fn lemma_number_shown_chooses(x: XMTView, answer: Seq<char>, index: nat, count: nat)
    requires
        index < count,
        count <= usize::MAX,
        trimmed(answer) == decimal(index + 1),
    ensures
        x.pick_step(answer, count) == PickStepView::Chosen(index as usize),
{
    lemma_decimal_reads_back(index + 1);
}

/// Only the numbers from one to the number of items choose an item, and the
/// item chosen is one of them; JSON mode apart, every other answer is
/// answered by a line on standard error.
pub proof fn lemma_pick_step_in_range(x: XMTView, answer: Seq<char>, count: nat)
    ensures
        x.pick_step(answer, count) matches PickStepView::Chosen(index) ==> index < count
            && number_in(trimmed(answer)) == Some((index + 1) as usize),
        x.pick_step(answer, count) matches PickStepView::Retry(line) ==> (line is None
            <==> x.silent()),
        x.pick_step(answer, count) matches PickStepView::Retry(Some(line)) ==> line.stream
            == Stream::Stderr,
{
}

} // verus!
