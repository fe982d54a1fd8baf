use xmt::xmt::builtin_style;
use xmt::{Color, Config, Level, Line, OutputMode, Rendering, Stream, Style, XMT};

fn terminal() -> XMT {
    XMT::with_terminal(Config::default(), true, true)
}

fn piped() -> XMT {
    XMT::with_terminal(Config::default(), false, false)
}

fn line(stream: Stream, text: &str, color: Option<Color>, newline: bool) -> Line {
    Line { stream, text: String::from(text), color, newline }
}

#[test]
fn with_terminal_keeps_what_it_is_given() {
    let cfg = Config::default().with_tree_output();
    let xmt = XMT::with_terminal(cfg.clone(), true, false);
    assert_eq!(xmt.config(), &cfg);
    assert_eq!(xmt.indent_level(), 0);
    assert!(xmt.stdout_tty());
    assert!(!xmt.stderr_tty());
}

#[test]
fn new_starts_at_depth_zero_with_its_configuration() {
    let cfg = Config::default().with_json_output();
    let xmt = XMT::new(cfg.clone());
    assert_eq!(xmt.config(), &cfg);
    assert_eq!(xmt.indent_level(), 0);
}

#[test]
fn default_has_the_default_configuration() {
    let xmt = XMT::default();
    assert_eq!(xmt.config(), &Config::default());
    assert_eq!(xmt.indent_level(), 0);
}

#[test]
fn builtin_styles_by_level() {
    let plus_white = Style { prefix: Some(String::from("+")), color: Color::White };
    assert_eq!(builtin_style(Level::Normal), plus_white);
    assert_eq!(builtin_style(Level::Prompt), plus_white);
    assert_eq!(builtin_style(Level::Detail), plus_white);
    assert_eq!(
        builtin_style(Level::Success),
        Style { prefix: Some(String::from("✔")), color: Color::Green }
    );
    assert_eq!(
        builtin_style(Level::Warn),
        Style { prefix: Some(String::from("!")), color: Color::Yellow }
    );
    assert_eq!(
        builtin_style(Level::Error),
        Style { prefix: Some(String::from("!")), color: Color::Red }
    );
}

#[test]
fn style_falls_back_to_the_builtin_one() {
    let xmt = terminal();
    let levels = [
        Level::Normal,
        Level::Prompt,
        Level::Success,
        Level::Detail,
        Level::Warn,
        Level::Error,
    ];
    for level in levels {
        assert_eq!(xmt.style(level), builtin_style(level));
    }
}

#[test]
fn style_prefers_the_entry_of_the_theme() {
    let themed = Style::new(Color::Blue).with_prefix(String::from(">>"));
    let xmt = XMT::with_terminal(
        Config::default().with_style(Level::Warn, themed.clone()),
        true,
        true,
    );
    assert_eq!(xmt.style(Level::Warn), themed);
    assert_eq!(xmt.style(Level::Error), builtin_style(Level::Error));
}

#[test]
fn nest_adds_one_level() {
    let xmt = terminal();
    assert_eq!(xmt.nest().indent_level(), 1);
}

#[test]
fn nest_twice_adds_two_and_leaves_the_parent() {
    let start = terminal().nest().nest().nest();
    let before = start.clone();
    let deeper = start.nest().nest();
    assert_eq!(deeper.indent_level(), start.indent_level() + 2);
    assert_eq!(deeper.indent_level(), 5);
    assert_eq!(start, before);
}

#[test]
fn nest_changes_nothing_but_the_depth() {
    let cfg = Config::default()
        .with_tree_output()
        .with_style(Level::Normal, Style::new(Color::Red));
    let xmt = XMT::with_terminal(cfg.clone(), true, false);
    let nested = xmt.nest();
    assert_eq!(nested.config(), &cfg);
    assert!(nested.stdout_tty());
    assert!(!nested.stderr_tty());
}

#[test]
fn print_on_a_terminal_is_decorated() {
    assert_eq!(
        terminal().print("hello"),
        Some(line(Stream::Stdout, "+ hello", Some(Color::White), true))
    );
}

#[test]
fn print_has_one_marker_for_each_level() {
    let xmt = terminal().nest().nest().nest();
    let shown = xmt.print("deep").unwrap();
    assert_eq!(shown.text, "|   |   |   + deep");
    assert!(shown.text.starts_with(&"|   ".repeat(3)));
    assert_eq!(&shown.text["|   ".len() * 3..], "+ deep");
}

#[test]
fn print_off_a_terminal_is_the_bare_message() {
    let xmt = piped().nest().nest();
    assert_eq!(xmt.print("hello"), Some(line(Stream::Stdout, "hello", None, true)));
}

#[test]
fn print_with_a_themed_style() {
    let cfg = Config::default()
        .with_style(Level::Normal, Style::new(Color::Blue).with_prefix(String::from("->")));
    let xmt = XMT::with_terminal(cfg, true, true).nest();
    assert_eq!(
        xmt.print("hello"),
        Some(line(Stream::Stdout, "|   -> hello", Some(Color::Blue), true))
    );
}

#[test]
fn print_with_a_style_without_prefix_keeps_the_space() {
    let cfg = Config::default().with_style(Level::Normal, Style::new(Color::Blue));
    let xmt = XMT::with_terminal(cfg, true, true);
    assert_eq!(
        xmt.print("hello"),
        Some(line(Stream::Stdout, " hello", Some(Color::Blue), true))
    );
}

#[test]
fn success_on_a_terminal() {
    assert_eq!(
        terminal().success("we did it"),
        Some(line(Stream::Stdout, "✔ we did it", Some(Color::Green), true))
    );
}

#[test]
fn warn_on_a_terminal_goes_to_stdout() {
    assert_eq!(
        terminal().warn("careful"),
        Some(line(Stream::Stdout, "! careful", Some(Color::Yellow), true))
    );
}

#[test]
fn error_on_a_terminal_goes_to_stderr() {
    assert_eq!(
        terminal().nest().error("bad"),
        Some(line(Stream::Stderr, "|   ! bad", Some(Color::Red), true))
    );
}

#[test]
fn error_goes_by_stderr_alone() {
    let out_only = XMT::with_terminal(Config::default(), true, false);
    assert_eq!(out_only.error("bad"), Some(line(Stream::Stderr, "bad", None, true)));
    let err_only = XMT::with_terminal(Config::default(), false, true);
    assert_eq!(
        err_only.error("bad"),
        Some(line(Stream::Stderr, "! bad", Some(Color::Red), true))
    );
    assert_eq!(err_only.warn("careful"), Some(line(Stream::Stdout, "careful", None, true)));
}

#[test]
fn detail_on_a_terminal() {
    assert_eq!(
        terminal().detail("note"),
        Some(line(Stream::Stdout, "+ note", Some(Color::White), true))
    );
}

#[test]
fn detail_uses_the_entry_for_details() {
    let cfg = Config::default()
        .with_style(Level::Detail, Style::new(Color::BrightBlack).with_prefix(String::from("·")));
    let xmt = XMT::with_terminal(cfg, true, true);
    assert_eq!(
        xmt.detail("note"),
        Some(line(Stream::Stdout, "· note", Some(Color::BrightBlack), true))
    );
}

#[test]
fn detail_off_a_terminal_is_dropped() {
    assert_eq!(piped().detail("note"), None);
    let err_only = XMT::with_terminal(Config::default(), false, true);
    assert_eq!(err_only.detail("note"), None);
}

#[test]
fn json_mode_drops_every_leveled_message() {
    for (stdout_tty, stderr_tty) in [(true, true), (true, false), (false, true), (false, false)] {
        let xmt = XMT::with_terminal(Config::default().with_json_output(), stdout_tty, stderr_tty);
        assert_eq!(xmt.print("m"), None);
        assert_eq!(xmt.detail("m"), None);
        assert_eq!(xmt.success("m"), None);
        assert_eq!(xmt.warn("m"), None);
        assert_eq!(xmt.error("m"), None);
    }
}

#[test]
fn out_in_json_mode_is_json() {
    let cfg = Config::default().with_json_output();
    assert_eq!(XMT::with_terminal(cfg.clone(), true, true).out(), Rendering::JsonPretty);
    assert_eq!(XMT::with_terminal(cfg, false, true).out(), Rendering::JsonCompact);
}

#[test]
fn out_off_a_terminal_is_compact_json_in_every_mode() {
    let configs = [
        Config::default(),
        Config::default().with_tree_output(),
        Config::default().with_json_output(),
    ];
    for cfg in configs {
        assert_eq!(XMT::with_terminal(cfg.clone(), false, false).out(), Rendering::JsonCompact);
        assert_eq!(XMT::with_terminal(cfg, false, true).out(), Rendering::JsonCompact);
    }
}

#[test]
fn out_on_a_terminal_follows_the_mode() {
    assert_eq!(terminal().out(), Rendering::Text);
    assert_eq!(terminal().config().output, OutputMode::Text);
    assert_eq!(
        XMT::with_terminal(Config::default().with_tree_output(), true, false).out(),
        Rendering::Tree
    );
}

#[test]
fn out_line_goes_to_stdout_as_it_is() {
    assert_eq!(
        XMT::out_line(String::from("{\"name\":\"thing\"}")),
        line(Stream::Stdout, "{\"name\":\"thing\"}", None, true)
    );
    assert_eq!(XMT::out_line(String::from("x")).render(), "x\n");
}
