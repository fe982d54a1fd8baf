//! Levels, styles and the configuration a formatter is built from.

use std::collections::HashMap;
use vstd::prelude::*;

use crate::color::Color;

verus! {

broadcast use vstd::std_specs::hash::group_hash_axioms;

/// The semantic category of a message.
#[derive(Copy, Clone, Debug, Hash, PartialEq, Eq, Structural)]
pub enum Level {
    /// Ordinary messages.
    Normal,
    /// Text shown before reading an answer.
    Prompt,
    /// Reports of success.
    Success,
    /// Decoration that is shown on a terminal only.
    Detail,
    /// Warnings, written to standard output.
    Warn,
    /// Errors, written to standard error.
    Error,
}

impl Level {
    /// The number a level is filed under in a theme; no two levels share one.
    spec fn key(self) -> u8 {
        match self {
            Level::Normal => 0,
            Level::Prompt => 1,
            Level::Success => 2,
            Level::Detail => 3,
            Level::Warn => 4,
            Level::Error => 5,
        }
    }

    fn to_key(self) -> (k: u8)
        ensures
            k == self.key(),
    {
        match self {
            Level::Normal => 0,
            Level::Prompt => 1,
            Level::Success => 2,
            Level::Detail => 3,
            Level::Warn => 4,
            Level::Error => 5,
        }
    }
}

/// How the messages of one level are shown.
#[derive(Clone, Debug, PartialEq, Eq)]
pub struct Style {
    /// The glyph put before the message.
    pub prefix: Option<String>,
    /// The colour of the whole line.
    pub color: Color,
}

/// What a [`Style`] holds, with the prefix as a sequence of characters.
pub struct StyleView {
    pub prefix: Option<Seq<char>>,
    pub color: Color,
}

impl StyleView {
    /// The style of `color` without a prefix.
    pub open spec fn new(color: Color) -> StyleView {
        StyleView { prefix: None, color }
    }

    /// This style with `prefix` as its prefix, whatever it had before.
    pub open spec fn with_prefix(self, prefix: Seq<char>) -> StyleView {
        StyleView { prefix: Some(prefix), color: self.color }
    }
}

impl View for Style {
    type V = StyleView;

    open spec fn view(&self) -> StyleView {
        StyleView {
            prefix: match self.prefix {
                Some(p) => Some(p@),
                None => None,
            },
            color: self.color,
        }
    }
}

impl Style {
    /// A style of the given colour, without a prefix.
    pub fn new(color: Color) -> (style: Style)
        ensures
            style@ == StyleView::new(color),
    {
        Style { prefix: None, color }
    }

    /// The same style with `prefix` put before each message.
    pub fn with_prefix(self, prefix: String) -> (style: Style)
        ensures
            style@ == self@.with_prefix(prefix@),
    {
        Style { prefix: Some(prefix), color: self.color }
    }
}

/// How a structured value handed to the formatter is written out.
#[derive(Clone, Copy, Debug, PartialEq, Eq, Structural)]
pub enum OutputMode {
    /// As the value displays itself. The default.
    Text,
    /// As an indented tree of its fields.
    Tree,
    /// As JSON. Leveled messages are dropped in this mode.
    JSON,
}

impl Default for OutputMode {
    fn default() -> (mode: OutputMode)
        ensures
            mode == OutputMode::Text,
    {
        OutputMode::Text
    }
}

/// The styles chosen for some of the levels, at most one for each.
#[derive(Clone, Debug, PartialEq, Eq)]
pub struct Theme {
    styles: HashMap<u8, Style>,
}

impl View for Theme {
    type V = Map<Level, StyleView>;

    closed spec fn view(&self) -> Map<Level, StyleView> {
        Map::new(
            |level: Level| self.styles@.contains_key(level.key()),
            |level: Level| self.styles@[level.key()]@,
        )
    }
}

impl Theme {
    /// A theme with no entry.
    pub fn new() -> (theme: Theme)
        ensures
            theme@ == Map::<Level, StyleView>::empty(),
    {
        let theme = Theme { styles: HashMap::new() };
        theme
    }

    /// Makes `style` the entry of `level`, in place of the one it had, if any.
    pub fn set(&mut self, level: Level, style: Style)
        ensures
            final(self)@ == old(self)@.insert(level, style@),
    {
        let k = level.to_key();
        self.styles.insert(k, style);
    }

    /// The entry of `level`, if the theme has one.
    pub fn get(&self, level: Level) -> (entry: Option<&Style>)
        ensures
            match entry {
                Some(style) => self@.contains_key(level) && self@[level] == style@,
                None => !self@.contains_key(level),
            },
    {
        let k = level.to_key();
        self.styles.get(&k)
    }

    /// A second theme with the same entries.
    pub fn duplicate(&self) -> (copy: Theme)
        ensures
            copy@ == self@,
    {
        let copy = Theme { styles: self.styles.clone() };
        copy
    }
}

impl Default for Theme {
    fn default() -> (theme: Theme)
        ensures
            theme@ == Map::<Level, StyleView>::empty(),
    {
        Theme::new()
    }
}

/// What a formatter is built from.
#[derive(Clone, Debug, PartialEq, Eq)]
pub struct Config {
    /// How structured values are written out.
    pub output: OutputMode,
    /// The styles of the levels; it counts on a terminal only.
    pub theme: Theme,
}

/// What a [`Config`] holds, with the theme as a map.
pub struct ConfigView {
    pub output: OutputMode,
    pub theme: Map<Level, StyleView>,
}

impl ConfigView {
    /// The configuration that has text output and an empty theme.
    pub open spec fn initial() -> ConfigView {
        ConfigView { output: OutputMode::Text, theme: Map::empty() }
    }

    /// This configuration with `style` as the entry of `level`.
    pub open spec fn with_style(self, level: Level, style: StyleView) -> ConfigView {
        ConfigView { output: self.output, theme: self.theme.insert(level, style) }
    }

    /// This configuration with `output` as its output mode.
    pub open spec fn with_output(self, output: OutputMode) -> ConfigView {
        ConfigView { output, theme: self.theme }
    }
}

impl View for Config {
    type V = ConfigView;

    open spec fn view(&self) -> ConfigView {
        ConfigView { output: self.output, theme: self.theme@ }
    }
}

impl Default for Config {
    fn default() -> (cfg: Config)
        ensures
            cfg@ == ConfigView::initial(),
    {
        Config { output: OutputMode::Text, theme: Theme::new() }
    }
}

impl Config {
    /// Sets the style of `level`, in place of the one set before, if any.
    pub fn with_style(self, level: Level, style: Style) -> (cfg: Config)
        ensures
            cfg@ == self@.with_style(level, style@),
    {
        let mut cfg = self;
        cfg.theme.set(level, style);
        cfg
    }

    /// Selects JSON output, in place of the mode selected before.
    pub fn with_json_output(self) -> (cfg: Config)
        ensures
            cfg@ == self@.with_output(OutputMode::JSON),
    {
        Config { output: OutputMode::JSON, theme: self.theme }
    }

    /// Selects tree output, in place of the mode selected before.
    pub fn with_tree_output(self) -> (cfg: Config)
        ensures
            cfg@ == self@.with_output(OutputMode::Tree),
    {
        Config { output: OutputMode::Tree, theme: self.theme }
    }

    /// A second configuration with the same mode and entries.
    pub fn duplicate(&self) -> (copy: Config)
        ensures
            copy@ == self@,
    {
        Config { output: self.output, theme: self.theme.duplicate() }
    }
}

/// Of two output modes selected one after the other, the second is in
/// force; of two styles set for one level, the second is its entry; and a
/// style set for one level leaves the entries of the other levels alone.
pub proof fn lemma_last_choice_wins(
    cfg: ConfigView,
    first: OutputMode,
    second: OutputMode,
    level: Level,
    earlier: StyleView,
    later: StyleView,
    other: Level,
)
    ensures
        cfg.with_output(first).with_output(second) == cfg.with_output(second),
        cfg.with_output(second).output == second,
        cfg.with_style(level, earlier).with_style(level, later) == cfg.with_style(level, later),
        cfg.with_style(level, later).theme[level] == later,
        other != level ==> cfg.with_style(level, later).theme.contains_key(other)
            == cfg.theme.contains_key(other),
        other != level && cfg.theme.contains_key(other) ==> cfg.with_style(level, later).theme[other]
            == cfg.theme[other],
{
    assert(cfg.theme.insert(level, earlier).insert(level, later) =~= cfg.theme.insert(
        level,
        later,
    ));
}

/// A style built with `new` and then `with_prefix` is the style that has
/// exactly that prefix and that colour.
pub proof fn lemma_style_built_in_steps(color: Color, prefix: Seq<char>)
    ensures
        StyleView::new(color).with_prefix(prefix) == (StyleView { prefix: Some(prefix), color }),
        StyleView::new(color) == (StyleView { prefix: None, color }),
{
}

} // verus!
