//! Readers for each kind of field value: colors, attribute lists, styles, keys,
//! modifiers, key chords, durations, counts, texts and character sets.
use vstd::prelude::*;

use crate::chord::{KeyChord, KeyCode, KeyModifiers};
use crate::document::{agrees, agrees_plain, fail, text_eq, value_token, Failure, FailureModel, Value};
use crate::error::ErrorKind;
use crate::names::{color_from_text, color_of_text, flag_word, modifier_flag, modifiers_from_text, modifiers_of_text};
use crate::style::{decode, deserialize, Attribute, Color, Style, StyleRecord, StyleRecordModel};

verus! {

/// The attribute of a name: its variant name.
pub open spec fn attribute_named(s: Seq<char>) -> Option<Attribute> {
    if s == "Reset"@ {
        Some(Attribute::Reset)
    } else if s == "Bold"@ {
        Some(Attribute::Bold)
    } else if s == "Dim"@ {
        Some(Attribute::Dim)
    } else if s == "Italic"@ {
        Some(Attribute::Italic)
    } else if s == "Underlined"@ {
        Some(Attribute::Underlined)
    } else if s == "DoubleUnderlined"@ {
        Some(Attribute::DoubleUnderlined)
    } else if s == "Undercurled"@ {
        Some(Attribute::Undercurled)
    } else if s == "Underdotted"@ {
        Some(Attribute::Underdotted)
    } else if s == "Underdashed"@ {
        Some(Attribute::Underdashed)
    } else if s == "SlowBlink"@ {
        Some(Attribute::SlowBlink)
    } else if s == "RapidBlink"@ {
        Some(Attribute::RapidBlink)
    } else if s == "Reverse"@ {
        Some(Attribute::Reverse)
    } else if s == "Hidden"@ {
        Some(Attribute::Hidden)
    } else if s == "CrossedOut"@ {
        Some(Attribute::CrossedOut)
    } else if s == "Fraktur"@ {
        Some(Attribute::Fraktur)
    } else if s == "NoBold"@ {
        Some(Attribute::NoBold)
    } else if s == "NormalIntensity"@ {
        Some(Attribute::NormalIntensity)
    } else if s == "NoItalic"@ {
        Some(Attribute::NoItalic)
    } else if s == "NoUnderline"@ {
        Some(Attribute::NoUnderline)
    } else if s == "NoBlink"@ {
        Some(Attribute::NoBlink)
    } else if s == "NoReverse"@ {
        Some(Attribute::NoReverse)
    } else if s == "NoHidden"@ {
        Some(Attribute::NoHidden)
    } else if s == "NotCrossedOut"@ {
        Some(Attribute::NotCrossedOut)
    } else if s == "Framed"@ {
        Some(Attribute::Framed)
    } else if s == "Encircled"@ {
        Some(Attribute::Encircled)
    } else if s == "OverLined"@ {
        Some(Attribute::OverLined)
    } else if s == "NotFramedOrEncircled"@ {
        Some(Attribute::NotFramedOrEncircled)
    } else if s == "NotOverLined"@ {
        Some(Attribute::NotOverLined)
    } else {
        None
    }
}

/// The attribute of a name: its variant name.
pub fn attribute_from_name(s: &str) -> (r: Option<Attribute>)
    ensures
        r == attribute_named(s@),
{
    if text_eq(s, "Reset") {
        Some(Attribute::Reset)
    } else if text_eq(s, "Bold") {
        Some(Attribute::Bold)
    } else if text_eq(s, "Dim") {
        Some(Attribute::Dim)
    } else if text_eq(s, "Italic") {
        Some(Attribute::Italic)
    } else if text_eq(s, "Underlined") {
        Some(Attribute::Underlined)
    } else if text_eq(s, "DoubleUnderlined") {
        Some(Attribute::DoubleUnderlined)
    } else if text_eq(s, "Undercurled") {
        Some(Attribute::Undercurled)
    } else if text_eq(s, "Underdotted") {
        Some(Attribute::Underdotted)
    } else if text_eq(s, "Underdashed") {
        Some(Attribute::Underdashed)
    } else if text_eq(s, "SlowBlink") {
        Some(Attribute::SlowBlink)
    } else if text_eq(s, "RapidBlink") {
        Some(Attribute::RapidBlink)
    } else if text_eq(s, "Reverse") {
        Some(Attribute::Reverse)
    } else if text_eq(s, "Hidden") {
        Some(Attribute::Hidden)
    } else if text_eq(s, "CrossedOut") {
        Some(Attribute::CrossedOut)
    } else if text_eq(s, "Fraktur") {
        Some(Attribute::Fraktur)
    } else if text_eq(s, "NoBold") {
        Some(Attribute::NoBold)
    } else if text_eq(s, "NormalIntensity") {
        Some(Attribute::NormalIntensity)
    } else if text_eq(s, "NoItalic") {
        Some(Attribute::NoItalic)
    } else if text_eq(s, "NoUnderline") {
        Some(Attribute::NoUnderline)
    } else if text_eq(s, "NoBlink") {
        Some(Attribute::NoBlink)
    } else if text_eq(s, "NoReverse") {
        Some(Attribute::NoReverse)
    } else if text_eq(s, "NoHidden") {
        Some(Attribute::NoHidden)
    } else if text_eq(s, "NotCrossedOut") {
        Some(Attribute::NotCrossedOut)
    } else if text_eq(s, "Framed") {
        Some(Attribute::Framed)
    } else if text_eq(s, "Encircled") {
        Some(Attribute::Encircled)
    } else if text_eq(s, "OverLined") {
        Some(Attribute::OverLined)
    } else if text_eq(s, "NotFramedOrEncircled") {
        Some(Attribute::NotFramedOrEncircled)
    } else if text_eq(s, "NotOverLined") {
        Some(Attribute::NotOverLined)
    } else {
        None
    }
}

/// The key without payload of a name: its variant name.
pub open spec fn key_named(s: Seq<char>) -> Option<KeyCode> {
    if s == "Backspace"@ {
        Some(KeyCode::Backspace)
    } else if s == "Enter"@ {
        Some(KeyCode::Enter)
    } else if s == "Left"@ {
        Some(KeyCode::Left)
    } else if s == "Right"@ {
        Some(KeyCode::Right)
    } else if s == "Up"@ {
        Some(KeyCode::Up)
    } else if s == "Down"@ {
        Some(KeyCode::Down)
    } else if s == "Home"@ {
        Some(KeyCode::Home)
    } else if s == "End"@ {
        Some(KeyCode::End)
    } else if s == "PageUp"@ {
        Some(KeyCode::PageUp)
    } else if s == "PageDown"@ {
        Some(KeyCode::PageDown)
    } else if s == "Tab"@ {
        Some(KeyCode::Tab)
    } else if s == "BackTab"@ {
        Some(KeyCode::BackTab)
    } else if s == "Delete"@ {
        Some(KeyCode::Delete)
    } else if s == "Insert"@ {
        Some(KeyCode::Insert)
    } else if s == "Null"@ {
        Some(KeyCode::Null)
    } else if s == "Esc"@ {
        Some(KeyCode::Esc)
    } else if s == "CapsLock"@ {
        Some(KeyCode::CapsLock)
    } else if s == "ScrollLock"@ {
        Some(KeyCode::ScrollLock)
    } else if s == "NumLock"@ {
        Some(KeyCode::NumLock)
    } else if s == "PrintScreen"@ {
        Some(KeyCode::PrintScreen)
    } else if s == "Pause"@ {
        Some(KeyCode::Pause)
    } else if s == "Menu"@ {
        Some(KeyCode::Menu)
    } else if s == "KeypadBegin"@ {
        Some(KeyCode::KeypadBegin)
    } else {
        None
    }
}

/// The key without payload of a name: its variant name.
pub fn key_from_name(s: &str) -> (r: Option<KeyCode>)
    ensures
        r == key_named(s@),
{
    if text_eq(s, "Backspace") {
        Some(KeyCode::Backspace)
    } else if text_eq(s, "Enter") {
        Some(KeyCode::Enter)
    } else if text_eq(s, "Left") {
        Some(KeyCode::Left)
    } else if text_eq(s, "Right") {
        Some(KeyCode::Right)
    } else if text_eq(s, "Up") {
        Some(KeyCode::Up)
    } else if text_eq(s, "Down") {
        Some(KeyCode::Down)
    } else if text_eq(s, "Home") {
        Some(KeyCode::Home)
    } else if text_eq(s, "End") {
        Some(KeyCode::End)
    } else if text_eq(s, "PageUp") {
        Some(KeyCode::PageUp)
    } else if text_eq(s, "PageDown") {
        Some(KeyCode::PageDown)
    } else if text_eq(s, "Tab") {
        Some(KeyCode::Tab)
    } else if text_eq(s, "BackTab") {
        Some(KeyCode::BackTab)
    } else if text_eq(s, "Delete") {
        Some(KeyCode::Delete)
    } else if text_eq(s, "Insert") {
        Some(KeyCode::Insert)
    } else if text_eq(s, "Null") {
        Some(KeyCode::Null)
    } else if text_eq(s, "Esc") {
        Some(KeyCode::Esc)
    } else if text_eq(s, "CapsLock") {
        Some(KeyCode::CapsLock)
    } else if text_eq(s, "ScrollLock") {
        Some(KeyCode::ScrollLock)
    } else if text_eq(s, "NumLock") {
        Some(KeyCode::NumLock)
    } else if text_eq(s, "PrintScreen") {
        Some(KeyCode::PrintScreen)
    } else if text_eq(s, "Pause") {
        Some(KeyCode::Pause)
    } else if text_eq(s, "Menu") {
        Some(KeyCode::Menu)
    } else if text_eq(s, "KeypadBegin") {
        Some(KeyCode::KeypadBegin)
    } else {
        None
    }
}

/// A color field: a color name.
pub open spec fn color_value(v: Value) -> Result<Color, FailureModel> {
    match v {
        Value::Text(s) => match color_of_text(s@) {
            Some(c) => Ok(c),
            None => Err(fail(ErrorKind::UnrecognizedColor, s@)),
        },
        _ => Err(fail(ErrorKind::MalformedStructure, value_token(v))),
    }
}

pub fn parse_color(v: &Value) -> (r: Result<Color, Failure>)
    ensures
        agrees_plain(r, color_value(*v)),
{
    match v {
        Value::Text(s) => match color_from_text(s.as_str()) {
            Some(c) => Ok(c),
            None => Err(Failure::new(ErrorKind::UnrecognizedColor, s.as_str())),
        },
        _ => Err(Failure::of_value(ErrorKind::MalformedStructure, v)),
    }
}

/// One entry of an attribute list: an attribute name.
pub open spec fn attribute_value(v: Value) -> Result<Attribute, FailureModel> {
    match v {
        Value::Text(s) => match attribute_named(s@) {
            Some(a) => Ok(a),
            None => Err(fail(ErrorKind::UnrecognizedAttribute, s@)),
        },
        _ => Err(fail(ErrorKind::MalformedStructure, value_token(v))),
    }
}

/// The attributes named by the list entries from position `i` on, or the first failure.
pub open spec fn attributes_from(items: Seq<Value>, i: int) -> Result<Seq<Attribute>, FailureModel>
    decreases items.len() - i,
{
    if i >= items.len() || i < 0 {
        Ok(Seq::empty())
    } else {
        match attribute_value(items[i]) {
            Err(e) => Err(e),
            Ok(a) => match attributes_from(items, i + 1) {
                Ok(rest) => Ok(seq![a] + rest),
                Err(e) => Err(e),
            },
        }
    }
}

/// An attribute list field.
pub open spec fn attribute_list_value(v: Value) -> Result<Seq<Attribute>, FailureModel> {
    match v {
        Value::List(items) => attributes_from(items@, 0),
        _ => Err(fail(ErrorKind::MalformedStructure, value_token(v))),
    }
}

pub fn parse_attribute_list(v: &Value) -> (r: Result<Vec<Attribute>, Failure>)
    ensures
        agrees(r, attribute_list_value(*v)),
{
    match v {
        Value::List(items) => {
            let mut out: Vec<Attribute> = Vec::new();
            let mut i: usize = 0;
            while i < items.len()
                invariant
                    i <= items@.len(),
                    *v == Value::List(*items),
                    attributes_from(items@, 0) == match attributes_from(items@, i as int) {
                        Ok(rest) => Ok(out@ + rest),
                        Err(e) => Err(e),
                    },
                decreases items@.len() - i,
            {
                let item = &items[i];
                assert(attributes_from(items@, i as int) == match attribute_value(*item) {
                    Err(e) => Err(e),
                    Ok(a) => match attributes_from(items@, i + 1) {
                        Ok(rest) => Ok(seq![a] + rest),
                        Err(e) => Err(e),
                    },
                });
                let a = match item {
                    Value::Text(s) => match attribute_from_name(s.as_str()) {
                        Some(a) => a,
                        None => {
                            let f = Failure::new(ErrorKind::UnrecognizedAttribute, s.as_str());
                            return Err(f);
                        },
                    },
                    _ => {
                        return Err(Failure::of_value(ErrorKind::MalformedStructure, item));
                    },
                };
                proof {
                    let rest = attributes_from(items@, i + 1);
                    if rest is Ok {
                        assert(out@ + (seq![a] + rest->Ok_0) =~= out@.push(a) + rest->Ok_0);
                    }
                }
                out.push(a);
                i = i + 1;
            }
            assert(out@ + Seq::<Attribute>::empty() =~= out@);
            Ok(out)
        },
        _ => Err(Failure::of_value(ErrorKind::MalformedStructure, v)),
    }
}

/// The record with no field set.
pub open spec fn blank_record() -> StyleRecordModel {
    StyleRecordModel { foreground: None, background: None, underline: None, attributes: None }
}

/// A style record with one more entry read in.
pub open spec fn style_entry(rec: StyleRecordModel, name: Seq<char>, v: Value) -> Result<
    StyleRecordModel,
    FailureModel,
> {
    if name == "foreground"@ {
        match color_value(v) {
            Ok(c) => Ok(StyleRecordModel { foreground: Some(c), ..rec }),
            Err(e) => Err(e),
        }
    } else if name == "background"@ {
        match color_value(v) {
            Ok(c) => Ok(StyleRecordModel { background: Some(c), ..rec }),
            Err(e) => Err(e),
        }
    } else if name == "underline"@ {
        match color_value(v) {
            Ok(c) => Ok(StyleRecordModel { underline: Some(c), ..rec }),
            Err(e) => Err(e),
        }
    } else if name == "attributes"@ {
        match attribute_list_value(v) {
            Ok(l) => Ok(StyleRecordModel { attributes: Some(l), ..rec }),
            Err(e) => Err(e),
        }
    } else {
        Err(fail(ErrorKind::UnknownField, name))
    }
}

/// The record after reading the entries from position `i` on, or the first failure.
pub open spec fn style_entries_from(rec: StyleRecordModel, es: Seq<(String, Value)>, i: int) -> Result<
    StyleRecordModel,
    FailureModel,
>
    decreases es.len() - i,
{
    if i >= es.len() || i < 0 {
        Ok(rec)
    } else {
        match style_entry(rec, es[i].0@, es[i].1) {
            Ok(next) => style_entries_from(next, es, i + 1),
            Err(e) => Err(e),
        }
    }
}

/// A style field: a table of optional colors and an optional attribute list,
/// decoded into a style; absent entries stay absent.
pub open spec fn style_value(v: Value) -> Result<Style, FailureModel> {
    match v {
        Value::Table(es) => match style_entries_from(blank_record(), es@, 0) {
            Ok(rec) => match decode(rec) {
                Ok(s) => Ok(s),
                Err(k) => Err(fail(k, "[]"@)),
            },
            Err(e) => Err(e),
        },
        _ => Err(fail(ErrorKind::MalformedStructure, value_token(v))),
    }
}

fn read_style_entry(rec: &mut StyleRecord, name: &str, v: &Value) -> (r: Result<(), Failure>)
    ensures
        match style_entry(old(rec)@, name@, *v) {
            Ok(next) => r is Ok && final(rec)@ == next,
            Err(e) => r is Err && r->Err_0@ == e,
        },
{
    if text_eq(name, "foreground") {
        rec.foreground = Some(parse_color(v)?);
    } else if text_eq(name, "background") {
        rec.background = Some(parse_color(v)?);
    } else if text_eq(name, "underline") {
        rec.underline = Some(parse_color(v)?);
    } else if text_eq(name, "attributes") {
        rec.attributes = Some(parse_attribute_list(v)?);
    } else {
        return Err(Failure::new(ErrorKind::UnknownField, name));
    }
    Ok(())
}

pub fn parse_style(v: &Value) -> (r: Result<Style, Failure>)
    ensures
        agrees_plain(r, style_value(*v)),
        r is Ok ==> r->Ok_0.wf(),
{
    match v {
        Value::Table(es) => {
            let mut rec = StyleRecord { foreground: None, background: None, underline: None, attributes: None };
            let mut i: usize = 0;
            while i < es.len()
                invariant
                    i <= es@.len(),
                    *v == Value::Table(*es),
                    style_entries_from(blank_record(), es@, 0) == style_entries_from(rec@, es@, i as int),
                decreases es@.len() - i,
            {
                let entry = &es[i];
                let ghost before = rec@;
                match read_style_entry(&mut rec, entry.0.as_str(), &entry.1) {
                    Ok(()) => {},
                    Err(e) => {
                        assert(style_entries_from(before, es@, i as int) == Err::<
                            StyleRecordModel,
                            FailureModel,
                        >(e@));
                        return Err(e);
                    },
                }
                i = i + 1;
            }
            match deserialize(&rec) {
                Ok(s) => Ok(s),
                Err(k) => Err(Failure::new(k, "[]")),
            }
        },
        _ => Err(Failure::of_value(ErrorKind::MalformedStructure, v)),
    }
}

/// A style table that sets only a recognized foreground color yields that
/// color and nothing else: the other colors stay absent and the attribute set
/// empty, whatever the default of the field it stands in.
pub proof fn lemma_foreground_only_style(doc: Value, name: String)
    requires
        doc is Table,
        doc->Table_0@.len() == 1,
        doc->Table_0@[0].0@ == "foreground"@,
        doc->Table_0@[0].1 == Value::Text(name),
        color_of_text(name@) is Some,
    ensures
        style_value(doc) == Ok::<Style, FailureModel>(
            Style {
                foreground: color_of_text(name@),
                background: None,
                underline: None,
                attributes: crate::style::AttributeSet { bits: 0 },
            },
        ),
{
    let es = doc->Table_0;
    let rec = StyleRecordModel { foreground: color_of_text(name@), ..blank_record() };
    assert(style_entry(blank_record(), es@[0].0@, es@[0].1) == Ok::<StyleRecordModel, FailureModel>(
        rec,
    ));
    assert(style_entries_from(rec, es@, 1) == Ok::<StyleRecordModel, FailureModel>(rec));
}

/// A key field: a key name, `{Char = "c"}` or `{F = n}`.
pub open spec fn key_value(v: Value) -> Result<KeyCode, FailureModel> {
    match v {
        Value::Text(s) => match key_named(s@) {
            Some(k) => Ok(k),
            None => Err(fail(ErrorKind::UnrecognizedKey, s@)),
        },
        Value::Table(es) => if es@.len() != 1 {
            Err(fail(ErrorKind::MalformedStructure, value_token(v)))
        } else if es@[0].0@ == "Char"@ {
            match es@[0].1 {
                Value::Text(c) => if c@.len() == 1 {
                    Ok(KeyCode::Char(c@[0]))
                } else {
                    Err(fail(ErrorKind::MalformedStructure, value_token(es@[0].1)))
                },
                _ => Err(fail(ErrorKind::MalformedStructure, value_token(es@[0].1))),
            }
        } else if es@[0].0@ == "F"@ {
            match es@[0].1 {
                Value::Integer(n) => if 0 <= n <= 255 {
                    Ok(KeyCode::F(n as u8))
                } else {
                    Err(fail(ErrorKind::MalformedStructure, value_token(es@[0].1)))
                },
                _ => Err(fail(ErrorKind::MalformedStructure, value_token(es@[0].1))),
            }
        } else {
            Err(fail(ErrorKind::UnrecognizedKey, es@[0].0@))
        },
        _ => Err(fail(ErrorKind::MalformedStructure, value_token(v))),
    }
}

pub fn parse_key(v: &Value) -> (r: Result<KeyCode, Failure>)
    ensures
        agrees_plain(r, key_value(*v)),
{
    match v {
        Value::Text(s) => match key_from_name(s.as_str()) {
            Some(k) => Ok(k),
            None => Err(Failure::new(ErrorKind::UnrecognizedKey, s.as_str())),
        },
        Value::Table(es) => {
            if es.len() != 1 {
                return Err(Failure::of_value(ErrorKind::MalformedStructure, v));
            }
            let name = es[0].0.as_str();
            if text_eq(name, "Char") {
                match &es[0].1 {
                    Value::Text(c) => {
                        if c.as_str().unicode_len() == 1 {
                            Ok(KeyCode::Char(c.as_str().get_char(0)))
                        } else {
                            Err(Failure::of_value(ErrorKind::MalformedStructure, &es[0].1))
                        }
                    },
                    _ => Err(Failure::of_value(ErrorKind::MalformedStructure, &es[0].1)),
                }
            } else if text_eq(name, "F") {
                match &es[0].1 {
                    Value::Integer(n) => {
                        if 0 <= *n && *n <= 255 {
                            Ok(KeyCode::F(*n as u8))
                        } else {
                            Err(Failure::of_value(ErrorKind::MalformedStructure, &es[0].1))
                        }
                    },
                    _ => Err(Failure::of_value(ErrorKind::MalformedStructure, &es[0].1)),
                }
            } else {
                Err(Failure::new(ErrorKind::UnrecognizedKey, name))
            }
        },
        _ => Err(Failure::of_value(ErrorKind::MalformedStructure, v)),
    }
}

/// A modifiers field: one modifier name or a combination of them.
pub open spec fn modifiers_value(v: Value) -> Result<KeyModifiers, FailureModel> {
    match v {
        Value::Text(s) => match modifiers_of_text(s@) {
            Some(bits) => Ok(KeyModifiers { bits }),
            None => Err(fail(ErrorKind::UnrecognizedModifier, s@)),
        },
        _ => Err(fail(ErrorKind::MalformedStructure, value_token(v))),
    }
}

pub fn parse_modifiers(v: &Value) -> (r: Result<KeyModifiers, Failure>)
    ensures
        agrees_plain(r, modifiers_value(*v)),
        match *v {
            Value::Text(s) => {
                &&& modifier_flag(s@) is Some ==> r is Ok && r->Ok_0.bits == modifier_flag(
                    s@,
                )->Some_0
                &&& flag_word(s@) && modifier_flag(s@) is None ==> r is Err && r->Err_0.kind
                    == ErrorKind::UnrecognizedModifier
            },
            _ => true,
        },
{
    match v {
        Value::Text(s) => match modifiers_from_text(s.as_str()) {
            Some(bits) => Ok(KeyModifiers { bits }),
            None => Err(Failure::new(ErrorKind::UnrecognizedModifier, s.as_str())),
        },
        _ => Err(Failure::of_value(ErrorKind::MalformedStructure, v)),
    }
}

/// Positions of the last `key` and `modifiers` entries from position `i` on,
/// starting from the positions already found, or the first unknown entry.
pub open spec fn chord_entries_from(
    key: Option<int>,
    mods: Option<int>,
    es: Seq<(String, Value)>,
    i: int,
) -> Result<(Option<int>, Option<int>), FailureModel>
    decreases es.len() - i,
{
    if i >= es.len() || i < 0 {
        Ok((key, mods))
    } else if es[i].0@ == "key"@ {
        chord_entries_from(Some(i), mods, es, i + 1)
    } else if es[i].0@ == "modifiers"@ {
        chord_entries_from(key, Some(i), es, i + 1)
    } else {
        Err(fail(ErrorKind::UnknownField, es[i].0@))
    }
}

/// A key chord field: a table with a `key` and a `modifiers` entry. The
/// modifiers are read first, so an unrecognized modifier is reported as such
/// whatever the key.
pub open spec fn chord_value(v: Value) -> Result<KeyChord, FailureModel> {
    match v {
        Value::Table(es) => match chord_entries_from(None, None, es@, 0) {
            Err(e) => Err(e),
            Ok((Some(k), Some(m))) => match modifiers_value(es@[m].1) {
                Err(e) => Err(e),
                Ok(modifiers) => match key_value(es@[k].1) {
                    Err(e) => Err(e),
                    Ok(code) => Ok(KeyChord { code, modifiers }),
                },
            },
            Ok(_) => Err(fail(ErrorKind::MalformedStructure, value_token(v))),
        },
        _ => Err(fail(ErrorKind::MalformedStructure, value_token(v))),
    }
}

pub fn parse_chord(v: &Value) -> (r: Result<KeyChord, Failure>)
    ensures
        agrees_plain(r, chord_value(*v)),
        match *v {
            Value::Table(es) => match chord_entries_from(None, None, es@, 0) {
                Ok((Some(k), Some(m))) => (es@[m].1 matches Value::Text(s) && modifiers_of_text(
                    s@,
                ) is None) ==> r is Err && r->Err_0.kind == ErrorKind::UnrecognizedModifier,
                _ => true,
            },
            _ => true,
        },
{
    match v {
        Value::Table(es) => {
            let mut key: Option<usize> = None;
            let mut mods: Option<usize> = None;
            let mut i: usize = 0;
            while i < es.len()
                invariant
                    i <= es@.len(),
                    *v == Value::Table(*es),
                    key matches Some(k) ==> k < i,
                    mods matches Some(m) ==> m < i,
                    chord_entries_from(None, None, es@, 0) == chord_entries_from(
                        match key {
                            Some(k) => Some(k as int),
                            None => None,
                        },
                        match mods {
                            Some(m) => Some(m as int),
                            None => None,
                        },
                        es@,
                        i as int,
                    ),
                decreases es@.len() - i,
            {
                let name = es[i].0.as_str();
                if text_eq(name, "key") {
                    key = Some(i);
                } else if text_eq(name, "modifiers") {
                    mods = Some(i);
                } else {
                    return Err(Failure::new(ErrorKind::UnknownField, name));
                }
                i = i + 1;
            }
            match (key, mods) {
                (Some(k), Some(m)) => {
                    let modifiers = parse_modifiers(&es[m].1)?;
                    let code = parse_key(&es[k].1)?;
                    Ok(KeyChord { code, modifiers })
                },
                _ => Err(Failure::of_value(ErrorKind::MalformedStructure, v)),
            }
        },
        _ => Err(Failure::of_value(ErrorKind::MalformedStructure, v)),
    }
}

/// A span of time with millisecond resolution.
#[derive(Clone, Copy, Debug, PartialEq, Eq, Structural)]
pub struct Duration {
    pub millis: u64,
}

impl Duration {
    pub fn from_millis(millis: u64) -> (r: Duration)
        ensures
            r.millis == millis,
    {
        Duration { millis }
    }

    pub fn as_millis(&self) -> (r: u64)
        ensures
            r == self.millis,
    {
        self.millis
    }
}

/// A duration field: a count of milliseconds, which may not be negative.
pub open spec fn duration_value(v: Value) -> Result<Duration, FailureModel> {
    match v {
        Value::Integer(n) => if n >= 0 {
            Ok(Duration { millis: n as u64 })
        } else {
            Err(fail(ErrorKind::InvalidDuration, value_token(v)))
        },
        _ => Err(fail(ErrorKind::MalformedStructure, value_token(v))),
    }
}

pub fn parse_duration(v: &Value) -> (r: Result<Duration, Failure>)
    ensures
        agrees_plain(r, duration_value(*v)),
{
    match v {
        Value::Integer(n) => {
            if *n >= 0 {
                Ok(Duration { millis: *n as u64 })
            } else {
                Err(Failure::of_value(ErrorKind::InvalidDuration, v))
            }
        },
        _ => Err(Failure::of_value(ErrorKind::MalformedStructure, v)),
    }
}

/// A count field: a positive integer.
pub open spec fn count_value(v: Value) -> Result<usize, FailureModel> {
    match v {
        Value::Integer(n) => if 0 < n <= usize::MAX {
            Ok(n as usize)
        } else {
            Err(fail(ErrorKind::MalformedStructure, value_token(v)))
        },
        _ => Err(fail(ErrorKind::MalformedStructure, value_token(v))),
    }
}

pub fn parse_count(v: &Value) -> (r: Result<usize, Failure>)
    ensures
        agrees_plain(r, count_value(*v)),
{
    match v {
        Value::Integer(n) => {
            if 0 < *n && (*n as u64) <= (usize::MAX as u64) {
                Ok(*n as usize)
            } else {
                Err(Failure::of_value(ErrorKind::MalformedStructure, v))
            }
        },
        _ => Err(Failure::of_value(ErrorKind::MalformedStructure, v)),
    }
}

/// A text field.
pub open spec fn text_value(v: Value) -> Result<Seq<char>, FailureModel> {
    match v {
        Value::Text(s) => Ok(s@),
        _ => Err(fail(ErrorKind::MalformedStructure, value_token(v))),
    }
}

pub fn parse_text(v: &Value) -> (r: Result<String, Failure>)
    ensures
        agrees(r, text_value(*v)),
{
    match v {
        Value::Text(s) => Ok(s.clone()),
        _ => Err(Failure::of_value(ErrorKind::MalformedStructure, v)),
    }
}

/// The characters of the list entries from position `i` on, each entry a
/// one-character text, or the first failure.
pub open spec fn chars_from(items: Seq<Value>, i: int) -> Result<Set<char>, FailureModel>
    decreases items.len() - i,
{
    if i >= items.len() || i < 0 {
        Ok(Set::empty())
    } else {
        match items[i] {
            Value::Text(s) => if s@.len() == 1 {
                match chars_from(items, i + 1) {
                    Ok(rest) => Ok(rest.insert(s@[0])),
                    Err(e) => Err(e),
                }
            } else {
                Err(fail(ErrorKind::MalformedStructure, s@))
            },
            _ => Err(fail(ErrorKind::MalformedStructure, value_token(items[i]))),
        }
    }
}

/// A character set field: a list of one-character texts.
pub open spec fn char_set_value(v: Value) -> Result<Set<char>, FailureModel> {
    match v {
        Value::List(items) => chars_from(items@, 0),
        _ => Err(fail(ErrorKind::MalformedStructure, value_token(v))),
    }
}

/// Parses a character set into a list without repeats.
pub fn parse_char_set(v: &Value) -> (r: Result<Vec<char>, Failure>)
    ensures
        match char_set_value(*v) {
            Ok(set) => r is Ok && r->Ok_0@.to_set() == set && r->Ok_0@.no_duplicates(),
            Err(e) => r is Err && r->Err_0@ == e,
        },
{
    match v {
        Value::List(items) => {
            let mut out: Vec<char> = Vec::new();
            let mut i: usize = 0;
            proof {
                assert(out@.to_set() =~= Set::<char>::empty());
                let all = chars_from(items@, 0);
                if all is Ok {
                    assert(out@.to_set() + all->Ok_0 =~= all->Ok_0);
                }
            }
            while i < items.len()
                invariant
                    i <= items@.len(),
                    *v == Value::List(*items),
                    out@.no_duplicates(),
                    chars_from(items@, 0) == match chars_from(items@, i as int) {
                        Ok(rest) => Ok(out@.to_set() + rest),
                        Err(e) => Err(e),
                    },
                decreases items@.len() - i,
            {
                match &items[i] {
                    Value::Text(s) => {
                        if s.as_str().unicode_len() != 1 {
                            return Err(Failure::new(ErrorKind::MalformedStructure, s.as_str()));
                        }
                        let c = s.as_str().get_char(0);
                        let mut seen = false;
                        let mut j: usize = 0;
                        while j < out.len()
                            invariant
                                j <= out@.len(),
                                seen == (exists|k: int| 0 <= k < j && out@[k] == c),
                            decreases out@.len() - j,
                        {
                            if out[j] == c {
                                seen = true;
                            }
                            j = j + 1;
                        }
                        let ghost old_out = out@;
                        if !seen {
                            out.push(c);
                        }
                        proof {
                            assert forall|x: char| #[trigger]
                                out@.to_set().contains(x) == old_out.to_set().insert(c).contains(
                                    x,
                                ) by {
                                if seen {
                                    let k = choose|k: int| 0 <= k < old_out.len() && old_out[k] == c;
                                    assert(old_out.contains(c));
                                } else {
                                    assert(out@ =~= old_out.push(c));
                                    assert(out@[old_out.len() as int] == c);
                                    if old_out.contains(x) {
                                        let k = choose|k: int| 0 <= k < old_out.len() && old_out[k] == x;
                                        assert(out@[k] == x);
                                    }
                                }
                            }
                            assert(out@.to_set() =~= old_out.to_set().insert(c));
                            if !seen {
                                assert(out@ =~= old_out.push(c));
                                assert(!old_out.contains(c));
                            }
                            let rest = chars_from(items@, i + 1);
                            if rest is Ok {
                                assert(old_out.to_set() + rest->Ok_0.insert(c) =~= out@.to_set()
                                    + rest->Ok_0);
                            }
                        }
                    },
                    _ => {
                        return Err(Failure::of_value(ErrorKind::MalformedStructure, &items[i]));
                    },
                }
                i = i + 1;
            }
            assert(out@.to_set() + Set::<char>::empty() =~= out@.to_set());
            Ok(out)
        },
        _ => Err(Failure::of_value(ErrorKind::MalformedStructure, v)),
    }
}

} // verus!
