use jnv_config::error::ErrorKind;
use jnv_config::style::{deserialize, serialize, Attribute, AttributeSet, Color, Style, StyleRecord};

#[test]
fn round_trip_keeps_style() {
    let s = Style {
        foreground: Some(Color::Rgb { r: 1, g: 2, b: 3 }),
        background: None,
        underline: Some(Color::AnsiValue(7)),
        attributes: AttributeSet::empty()
            .with(Attribute::NotOverLined)
            .with(Attribute::Reset)
            .with(Attribute::Italic),
    };
    assert_eq!(deserialize(&serialize(&s)), Ok(s));
    let plain = Style::new();
    assert_eq!(deserialize(&serialize(&plain)), Ok(plain));
}

#[test]
fn encoding_is_canonical_and_repeatable() {
    let s = Style {
        foreground: None,
        background: Some(Color::Blue),
        underline: None,
        attributes: AttributeSet::empty().with(Attribute::CrossedOut).with(Attribute::Bold),
    };
    let a = serialize(&s);
    let b = serialize(&s.clone());
    assert_eq!(a, b);
    assert_eq!(a.attributes, Some(vec![Attribute::Bold, Attribute::CrossedOut]));
    assert_eq!(a.background, Some(Color::Blue));
}

#[test]
fn empty_set_omits_list() {
    let r = serialize(&Style::new());
    assert_eq!(r.attributes, None);
}

#[test]
fn unknown_bits_are_not_listed() {
    let s = Style {
        foreground: None,
        background: None,
        underline: None,
        attributes: AttributeSet { bits: 1 << 30 },
    };
    assert_eq!(serialize(&s).attributes, None);
    let s = Style {
        foreground: None,
        background: None,
        underline: None,
        attributes: AttributeSet { bits: (1 << 30) | 2 },
    };
    assert_eq!(serialize(&s).attributes, Some(vec![Attribute::Bold]));
}

#[test]
fn present_empty_list_fails() {
    let r = StyleRecord { foreground: None, background: None, underline: None, attributes: Some(vec![]) };
    assert_eq!(deserialize(&r), Err(ErrorKind::MalformedStructure));
}

#[test]
fn decoding_folds_duplicates() {
    let r = StyleRecord {
        foreground: Some(Color::Red),
        background: None,
        underline: None,
        attributes: Some(vec![Attribute::Dim, Attribute::Dim, Attribute::Bold]),
    };
    let s = deserialize(&r).unwrap();
    assert_eq!(s.foreground, Some(Color::Red));
    assert_eq!(s.attributes, AttributeSet::empty().with(Attribute::Bold).with(Attribute::Dim));
    assert_eq!(s.attributes.bits, 6);
}
