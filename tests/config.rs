use jnv_config::chord::{KeyChord, KeyCode, KeyModifiers};
use jnv_config::config::Configuration;
use jnv_config::document::Value;
use jnv_config::error::ErrorKind;
use jnv_config::fields::{parse_chord, parse_style, Duration};
use jnv_config::style::{Attribute, AttributeSet, Color, Style};

fn text(s: &str) -> Value {
    Value::Text(s.to_string())
}

fn table(entries: Vec<(&str, Value)>) -> Value {
    Value::Table(entries.into_iter().map(|(k, v)| (k.to_string(), v)).collect())
}

fn style(fg: Option<Color>, bg: Option<Color>, ul: Option<Color>, attrs: &[Attribute]) -> Style {
    let mut set = AttributeSet::empty();
    for a in attrs {
        set = set.with(*a);
    }
    Style { foreground: fg, background: bg, underline: ul, attributes: set }
}

fn parse(entries: Vec<(&str, Value)>) -> Result<Configuration, jnv_config::config::ConfigError> {
    Configuration::from_document(&table(entries))
}

#[test]
fn test_config_deserialization() {
    let config = parse(vec![
        ("search_result_chunk_size", Value::Integer(10)),
        ("query_debounce_duration_ms", Value::Integer(1000)),
        ("resize_debounce_duration_ms", Value::Integer(2000)),
        ("search_load_chunk_size", Value::Integer(5)),
        ("focus_prefix", text("❯ ")),
        ("active_item_style", table(vec![("foreground", text("green"))])),
        (
            "focus_active_char_style",
            table(vec![
                ("background", text("green")),
                ("underline", text("red")),
                ("attributes", Value::List(vec![text("Bold"), text("Underlined")])),
            ]),
        ),
        (
            "move_to_tail",
            table(vec![("key", table(vec![("Char", text("$"))])), ("modifiers", text("CONTROL"))]),
        ),
    ])
    .unwrap();

    assert_eq!(config.search_result_chunk_size, 10);
    assert_eq!(config.query_debounce_duration, Duration::from_millis(1000));
    assert_eq!(config.resize_debounce_duration, Duration::from_millis(2000));
    assert_eq!(config.search_load_chunk_size, 5);
    assert_eq!(config.active_item_style, style(Some(Color::Green), None, None, &[]));
    assert_eq!(
        config.move_to_tail,
        KeyChord::new(KeyCode::Char('$'), KeyModifiers::control())
    );
    assert_eq!(config.focus_prefix, "❯ ".to_string());
    assert_eq!(
        config.focus_active_char_style,
        style(
            None,
            Some(Color::Green),
            Some(Color::Red),
            &[Attribute::Bold, Attribute::Underlined]
        ),
    );
}

#[test]
fn empty_document_is_default() {
    let config = parse(vec![]).unwrap();
    assert_eq!(config, Configuration::default());
    assert_eq!(config.search_result_chunk_size, 100);
    assert_eq!(config.search_load_chunk_size, 50000);
    assert_eq!(config.query_debounce_duration.as_millis(), 600);
    assert_eq!(config.resize_debounce_duration.as_millis(), 200);
    assert_eq!(config.spin_duration.as_millis(), 300);
    assert_eq!(config.focus_prefix, "❯❯ ");
    assert_eq!(config.defocus_prefix, "▼");
    assert_eq!(config.curly_brackets_style, style(None, None, None, &[Attribute::Bold]));
    assert_eq!(
        config.defocus_prefix_style,
        style(Some(Color::Blue), None, None, &[Attribute::Dim])
    );
    assert_eq!(config.search_up, KeyChord::new(KeyCode::Up, KeyModifiers::none()));
    assert_eq!(
        config.move_to_next_nearest,
        KeyChord::new(KeyCode::Char('f'), KeyModifiers::alt())
    );
    let mut chars = config.word_break_chars.clone();
    chars.sort();
    assert_eq!(chars, vec!['(', ')', '.', '[', ']', '|']);
}

#[test]
fn unknown_field_is_named() {
    let err = parse(vec![
        ("search_result_chunk_size", Value::Integer(10)),
        ("foo", Value::Integer(1)),
        ("spin_duration_ms", Value::Integer(5)),
    ])
    .unwrap_err();
    assert_eq!(err.kind, ErrorKind::UnknownField);
    assert_eq!(err.field, "foo");
    assert_eq!(err.token, "foo");
}

#[test]
fn unknown_field_wins_over_later_bad_value() {
    let err = parse(vec![
        ("spin_duration_ms", Value::Integer(-5)),
        ("forground", Value::Integer(1)),
    ])
    .unwrap_err();
    assert_eq!(err.kind, ErrorKind::UnknownField);
    assert_eq!(err.field, "forground");
}

#[test]
fn single_field_override_keeps_defaults() {
    let config = parse(vec![("search_result_chunk_size", Value::Integer(10))]).unwrap();
    let mut expected = Configuration::default();
    expected.search_result_chunk_size = 10;
    assert_eq!(config, expected);
}

#[test]
fn nested_style_override_does_not_inherit() {
    let config = parse(vec![(
        "active_item_style",
        table(vec![("foreground", text("green"))]),
    )])
    .unwrap();
    assert_eq!(config.active_item_style.foreground, Some(Color::Green));
    assert_eq!(config.active_item_style.background, None);
    assert_eq!(config.active_item_style.underline, None);
    assert!(config.active_item_style.attributes.is_empty());
}

#[test]
fn duration_is_milliseconds() {
    let config = parse(vec![("query_debounce_duration_ms", Value::Integer(1000))]).unwrap();
    assert_eq!(config.query_debounce_duration, Duration::from_millis(1000));
    assert_eq!(config.query_debounce_duration.as_millis(), 1000);
}

#[test]
fn negative_duration_is_refused() {
    let err = parse(vec![("spin_duration_ms", Value::Integer(-1))]).unwrap_err();
    assert_eq!(err.kind, ErrorKind::InvalidDuration);
    assert_eq!(err.field, "spin_duration_ms");
    assert_eq!(err.token, "-1");
    let err = parse(vec![("query_debounce_duration_ms", Value::Integer(i64::MIN))]).unwrap_err();
    assert_eq!(err.token, "-9223372036854775808");
}

#[test]
fn zero_chunk_size_is_refused() {
    let err = parse(vec![("search_load_chunk_size", Value::Integer(0))]).unwrap_err();
    assert_eq!(err.kind, ErrorKind::MalformedStructure);
    assert_eq!(err.field, "search_load_chunk_size");
    assert_eq!(err.token, "0");
}

#[test]
fn scalar_where_table_expected_is_malformed() {
    let err = parse(vec![("key_style", text("green"))]).unwrap_err();
    assert_eq!(err.kind, ErrorKind::MalformedStructure);
    assert_eq!(err.field, "key_style");
    assert_eq!(err.token, "green");
    let err = parse(vec![("focus_prefix", Value::List(vec![]))]).unwrap_err();
    assert_eq!(err.token, "[...]");
    let err = Configuration::from_document(&Value::Integer(3)).unwrap_err();
    assert_eq!(err.kind, ErrorKind::MalformedStructure);
    assert_eq!(err.token, "3");
}

#[test]
fn colors_in_every_form_crossterm_reads() {
    let s = parse_style(&table(vec![
        ("foreground", text("Green")),
        ("background", text("rgb_(1,2,3)")),
        ("underline", text("ansi_(200)")),
    ]))
    .unwrap();
    assert_eq!(s.foreground, Some(Color::Green));
    assert_eq!(s.background, Some(Color::Rgb { r: 1, g: 2, b: 3 }));
    assert_eq!(s.underline, Some(Color::AnsiValue(200)));
    let s = parse_style(&table(vec![("foreground", text("#ff0080"))])).unwrap();
    assert_eq!(s.foreground, Some(Color::Rgb { r: 255, g: 0, b: 128 }));
    let s = parse_style(&table(vec![("foreground", text("dark_cyan"))])).unwrap();
    assert_eq!(s.foreground, Some(Color::DarkCyan));
    let f = parse_style(&table(vec![("foreground", text("ansi_(300)"))])).unwrap_err();
    assert_eq!(f.kind, ErrorKind::UnrecognizedColor);
    assert_eq!(f.token, "ansi_(300)");
}

#[test]
fn function_key_out_of_range_names_value() {
    let f = parse_chord(&table(vec![
        ("key", table(vec![("F", Value::Integer(300))])),
        ("modifiers", text("NONE")),
    ]))
    .unwrap_err();
    assert_eq!(f.kind, ErrorKind::MalformedStructure);
    assert_eq!(f.token, "300");
}

#[test]
fn unknown_color_is_refused() {
    let err = parse(vec![("key_style", table(vec![("foreground", text("grene"))]))]).unwrap_err();
    assert_eq!(err.kind, ErrorKind::UnrecognizedColor);
    assert_eq!(err.field, "key_style");
    assert_eq!(err.token, "grene");
}

#[test]
fn unknown_attribute_is_refused() {
    let err = parse(vec![(
        "key_style",
        table(vec![("attributes", Value::List(vec![text("Bold"), text("Blinking")]))]),
    )])
    .unwrap_err();
    assert_eq!(err.kind, ErrorKind::UnrecognizedAttribute);
    assert_eq!(err.token, "Blinking");
}

#[test]
fn empty_attribute_list_is_refused() {
    let r = parse_style(&table(vec![("attributes", Value::List(vec![]))]));
    let f = r.unwrap_err();
    assert_eq!(f.kind, ErrorKind::MalformedStructure);
    assert_eq!(f.token, "[]");
}

#[test]
fn misspelt_style_entry_is_refused() {
    let r = parse_style(&table(vec![("forground", text("red"))]));
    let f = r.unwrap_err();
    assert_eq!(f.kind, ErrorKind::UnknownField);
    assert_eq!(f.token, "forground");
}

#[test]
fn attribute_order_in_list_does_not_matter() {
    let a = parse_style(&table(vec![(
        "attributes",
        Value::List(vec![text("Underlined"), text("Bold"), text("Underlined")]),
    )]))
    .unwrap();
    let b = parse_style(&table(vec![(
        "attributes",
        Value::List(vec![text("Bold"), text("Underlined")]),
    )]))
    .unwrap();
    assert_eq!(a, b);
    assert!(a.attributes.has(Attribute::Bold));
    assert!(a.attributes.has(Attribute::Underlined));
    assert!(!a.attributes.has(Attribute::Dim));
    let record = jnv_config::style::serialize(&a);
    assert_eq!(record.attributes, Some(vec![Attribute::Bold, Attribute::Underlined]));
}

#[test]
fn key_chord_from_char_and_control() {
    let chord = parse_chord(&table(vec![
        ("key", table(vec![("Char", text("$"))])),
        ("modifiers", text("CONTROL")),
    ]))
    .unwrap();
    assert_eq!(chord, KeyChord::new(KeyCode::Char('$'), KeyModifiers::control()));
}

#[test]
fn key_chord_named_key_and_combination() {
    let chord = parse_chord(&table(vec![
        ("modifiers", text("CONTROL | ALT")),
        ("key", text("Left")),
    ]))
    .unwrap();
    assert_eq!(chord.code, KeyCode::Left);
    assert_eq!(chord.modifiers, KeyModifiers::control().union(KeyModifiers::alt()));
    assert_eq!(chord.modifiers.bits, 6);
    let chord = parse_chord(&table(vec![
        ("key", table(vec![("F", Value::Integer(5))])),
        ("modifiers", text("NONE")),
    ]))
    .unwrap();
    assert_eq!(chord, KeyChord::new(KeyCode::F(5), KeyModifiers::none()));
}

#[test]
fn invalid_modifier_is_refused() {
    let err = parse(vec![(
        "erase",
        table(vec![("key", text("Backspace")), ("modifiers", text("CTRL"))]),
    )])
    .unwrap_err();
    assert_eq!(err.kind, ErrorKind::UnrecognizedModifier);
    assert_eq!(err.field, "erase");
    assert_eq!(err.token, "CTRL");
}

#[test]
fn unknown_key_is_refused() {
    let f = parse_chord(&table(vec![("key", text("Escape")), ("modifiers", text("NONE"))]))
        .unwrap_err();
    assert_eq!(f.kind, ErrorKind::UnrecognizedKey);
    assert_eq!(f.token, "Escape");
    let f = parse_chord(&table(vec![("key", text("Esc"))])).unwrap_err();
    assert_eq!(f.kind, ErrorKind::MalformedStructure);
}

#[test]
fn word_break_chars_are_a_set() {
    let config = parse(vec![(
        "word_break_chars",
        Value::List(vec![text("."), text(","), text(".")]),
    )])
    .unwrap();
    assert_eq!(config.word_break_chars, vec!['.', ',']);
    let err = parse(vec![("word_break_chars", Value::List(vec![text("ab")]))]).unwrap_err();
    assert_eq!(err.kind, ErrorKind::MalformedStructure);
}
