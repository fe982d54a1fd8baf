use xmt::{Color, Config, Level, OutputMode, Style, Theme};

#[test]
fn style_new_has_no_prefix() {
    let style = Style::new(Color::Red);
    assert_eq!(style.prefix, None);
    assert_eq!(style.color, Color::Red);
}

#[test]
fn style_with_prefix_equals_literal() {
    let built = Style::new(Color::Cyan).with_prefix(String::from("->"));
    let written = Style { prefix: Some(String::from("->")), color: Color::Cyan };
    assert_eq!(built, written);
}

#[test]
fn style_with_prefix_leaves_the_source_alone() {
    let plain = Style::new(Color::TrueColor { r: 1, g: 2, b: 3 });
    let changed = plain.clone().with_prefix(String::from("*"));
    assert_eq!(plain.prefix, None);
    assert_eq!(plain.color, Color::TrueColor { r: 1, g: 2, b: 3 });
    assert_eq!(changed.prefix, Some(String::from("*")));
    assert_eq!(changed.color, plain.color);
}

#[test]
fn style_with_prefix_replaces_an_earlier_prefix() {
    let style = Style::new(Color::Blue)
        .with_prefix(String::from("a"))
        .with_prefix(String::from("b"));
    assert_eq!(style.prefix, Some(String::from("b")));
}

#[test]
fn output_mode_defaults_to_text() {
    assert_eq!(OutputMode::default(), OutputMode::Text);
}

#[test]
fn theme_starts_empty() {
    let theme = Theme::new();
    let levels = [
        Level::Normal,
        Level::Prompt,
        Level::Success,
        Level::Detail,
        Level::Warn,
        Level::Error,
    ];
    for level in levels {
        assert_eq!(theme.get(level), None);
    }
    assert_eq!(Theme::default(), theme);
}

#[test]
fn theme_set_then_get() {
    let mut theme = Theme::new();
    theme.set(Level::Warn, Style::new(Color::Magenta));
    assert_eq!(theme.get(Level::Warn), Some(&Style::new(Color::Magenta)));
    assert_eq!(theme.get(Level::Error), None);
    assert_eq!(theme.get(Level::Normal), None);
}

#[test]
fn theme_set_overwrites() {
    let mut theme = Theme::new();
    theme.set(Level::Success, Style::new(Color::Magenta));
    theme.set(Level::Success, Style::new(Color::Black).with_prefix(String::from("ok")));
    assert_eq!(
        theme.get(Level::Success),
        Some(&Style { prefix: Some(String::from("ok")), color: Color::Black })
    );
}

#[test]
fn theme_keeps_the_levels_apart() {
    let mut theme = Theme::new();
    theme.set(Level::Normal, Style::new(Color::Red));
    theme.set(Level::Prompt, Style::new(Color::Green));
    theme.set(Level::Success, Style::new(Color::Yellow));
    theme.set(Level::Detail, Style::new(Color::Blue));
    theme.set(Level::Warn, Style::new(Color::Magenta));
    theme.set(Level::Error, Style::new(Color::Cyan));
    assert_eq!(theme.get(Level::Normal).unwrap().color, Color::Red);
    assert_eq!(theme.get(Level::Prompt).unwrap().color, Color::Green);
    assert_eq!(theme.get(Level::Success).unwrap().color, Color::Yellow);
    assert_eq!(theme.get(Level::Detail).unwrap().color, Color::Blue);
    assert_eq!(theme.get(Level::Warn).unwrap().color, Color::Magenta);
    assert_eq!(theme.get(Level::Error).unwrap().color, Color::Cyan);
}

#[test]
fn theme_duplicate_is_equal_and_independent() {
    let mut theme = Theme::new();
    theme.set(Level::Normal, Style::new(Color::Red));
    let mut copy = theme.duplicate();
    assert_eq!(copy, theme);
    copy.set(Level::Normal, Style::new(Color::Blue));
    assert_eq!(theme.get(Level::Normal).unwrap().color, Color::Red);
    assert_eq!(copy.get(Level::Normal).unwrap().color, Color::Blue);
}

#[test]
fn config_default_is_text_without_styles() {
    let cfg = Config::default();
    assert_eq!(cfg.output, OutputMode::Text);
    assert_eq!(cfg.theme, Theme::new());
}

#[test]
fn config_with_json_output() {
    assert_eq!(Config::default().with_json_output().output, OutputMode::JSON);
}

#[test]
fn config_with_tree_output() {
    assert_eq!(Config::default().with_tree_output().output, OutputMode::Tree);
}

#[test]
fn config_last_output_mode_wins() {
    assert_eq!(
        Config::default().with_json_output().with_tree_output().output,
        OutputMode::Tree
    );
    assert_eq!(
        Config::default().with_tree_output().with_json_output().output,
        OutputMode::JSON
    );
}

#[test]
fn config_with_style_sets_and_overwrites() {
    let cfg = Config::default()
        .with_style(Level::Normal, Style::new(Color::Red))
        .with_style(Level::Normal, Style::new(Color::Green));
    assert_eq!(cfg.theme.get(Level::Normal), Some(&Style::new(Color::Green)));
    assert_eq!(cfg.theme.get(Level::Warn), None);
    assert_eq!(cfg.output, OutputMode::Text);
}

#[test]
fn config_with_style_keeps_the_output_mode() {
    let cfg = Config::default()
        .with_json_output()
        .with_style(Level::Error, Style::new(Color::Red));
    assert_eq!(cfg.output, OutputMode::JSON);
}

#[test]
fn config_duplicate_is_equal() {
    let cfg = Config::default()
        .with_tree_output()
        .with_style(Level::Detail, Style::new(Color::BrightBlack));
    assert_eq!(cfg.duplicate(), cfg);
}
