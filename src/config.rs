//! The configuration aggregate, its built-in defaults, and the strict reading
//! of a document over those defaults.
use vstd::prelude::*;

use crate::chord::{KeyChord, KeyCode, KeyModifiers};
use crate::document::{describe, fail, text_eq, value_token, Failure, FailureModel, Value};
use crate::error::ErrorKind;
use crate::fields::{
    char_set_value, chord_value, count_value, duration_value, parse_char_set, parse_chord,
    parse_count, parse_duration, parse_style, parse_text, style_value, text_value, Duration,
};
use crate::style::{attr_bit, Attribute, AttributeSet, Color, Style};

verus! {

/// Every tunable value of the application: timings, chunk sizes, the style of
/// each screen region and JSON value kind, the editor labels, the word break
/// characters and the key chord of each editing command.
///
/// There is deliberately no binding for searching downwards: only
/// `search_up` has a command behind it.
#[derive(Clone, Debug, PartialEq, Eq)]
pub struct Configuration {
    /// Time to wait after a query edit before searching.
    pub query_debounce_duration: Duration,
    /// Time to wait after a terminal resize before redrawing.
    pub resize_debounce_duration: Duration,
    /// How many search results are shown at a time.
    pub search_result_chunk_size: usize,
    /// How many candidate paths are loaded at a time.
    pub search_load_chunk_size: usize,
    pub active_item_style: Style,
    pub inactive_item_style: Style,
    pub prefix_style: Style,
    pub active_char_style: Style,
    pub inactive_char_style: Style,
    /// Label shown before the focused editor.
    pub focus_prefix: String,
    pub focus_prefix_style: Style,
    pub focus_active_char_style: Style,
    pub focus_inactive_char_style: Style,
    /// Label shown before an editor without focus.
    pub defocus_prefix: String,
    pub defocus_prefix_style: Style,
    pub defocus_active_char_style: Style,
    pub defocus_inactive_char_style: Style,
    pub curly_brackets_style: Style,
    pub square_brackets_style: Style,
    pub key_style: Style,
    pub string_value_style: Style,
    pub number_value_style: Style,
    pub boolean_value_style: Style,
    pub null_value_style: Style,
    /// Characters at which word-wise motions stop.
    pub word_break_chars: Vec<char>,
    /// Interval between frames of the progress spinner.
    pub spin_duration: Duration,
    pub move_to_tail: KeyChord,
    pub move_to_head: KeyChord,
    pub backward: KeyChord,
    pub forward: KeyChord,
    pub completion: KeyChord,
    pub move_to_next_nearest: KeyChord,
    pub move_to_previous_nearest: KeyChord,
    pub erase: KeyChord,
    pub erase_all: KeyChord,
    pub erase_to_previous_nearest: KeyChord,
    pub erase_to_next_nearest: KeyChord,
    pub search_up: KeyChord,
}

/// What a configuration holds, with texts as sequences and the word break
/// characters as a set.
pub struct ConfigModel {
    pub query_debounce_duration: Duration,
    pub resize_debounce_duration: Duration,
    pub search_result_chunk_size: usize,
    pub search_load_chunk_size: usize,
    pub active_item_style: Style,
    pub inactive_item_style: Style,
    pub prefix_style: Style,
    pub active_char_style: Style,
    pub inactive_char_style: Style,
    pub focus_prefix: Seq<char>,
    pub focus_prefix_style: Style,
    pub focus_active_char_style: Style,
    pub focus_inactive_char_style: Style,
    pub defocus_prefix: Seq<char>,
    pub defocus_prefix_style: Style,
    pub defocus_active_char_style: Style,
    pub defocus_inactive_char_style: Style,
    pub curly_brackets_style: Style,
    pub square_brackets_style: Style,
    pub key_style: Style,
    pub string_value_style: Style,
    pub number_value_style: Style,
    pub boolean_value_style: Style,
    pub null_value_style: Style,
    pub word_break_chars: Set<char>,
    pub spin_duration: Duration,
    pub move_to_tail: KeyChord,
    pub move_to_head: KeyChord,
    pub backward: KeyChord,
    pub forward: KeyChord,
    pub completion: KeyChord,
    pub move_to_next_nearest: KeyChord,
    pub move_to_previous_nearest: KeyChord,
    pub erase: KeyChord,
    pub erase_all: KeyChord,
    pub erase_to_previous_nearest: KeyChord,
    pub erase_to_next_nearest: KeyChord,
    pub search_up: KeyChord,
}

impl View for Configuration {
    type V = ConfigModel;

    open spec fn view(&self) -> ConfigModel {
        ConfigModel {
            query_debounce_duration: self.query_debounce_duration,
            resize_debounce_duration: self.resize_debounce_duration,
            search_result_chunk_size: self.search_result_chunk_size,
            search_load_chunk_size: self.search_load_chunk_size,
            active_item_style: self.active_item_style,
            inactive_item_style: self.inactive_item_style,
            prefix_style: self.prefix_style,
            active_char_style: self.active_char_style,
            inactive_char_style: self.inactive_char_style,
            focus_prefix: self.focus_prefix@,
            focus_prefix_style: self.focus_prefix_style,
            focus_active_char_style: self.focus_active_char_style,
            focus_inactive_char_style: self.focus_inactive_char_style,
            defocus_prefix: self.defocus_prefix@,
            defocus_prefix_style: self.defocus_prefix_style,
            defocus_active_char_style: self.defocus_active_char_style,
            defocus_inactive_char_style: self.defocus_inactive_char_style,
            curly_brackets_style: self.curly_brackets_style,
            square_brackets_style: self.square_brackets_style,
            key_style: self.key_style,
            string_value_style: self.string_value_style,
            number_value_style: self.number_value_style,
            boolean_value_style: self.boolean_value_style,
            null_value_style: self.null_value_style,
            word_break_chars: self.word_break_chars@.to_set(),
            spin_duration: self.spin_duration,
            move_to_tail: self.move_to_tail,
            move_to_head: self.move_to_head,
            backward: self.backward,
            forward: self.forward,
            completion: self.completion,
            move_to_next_nearest: self.move_to_next_nearest,
            move_to_previous_nearest: self.move_to_previous_nearest,
            erase: self.erase,
            erase_all: self.erase_all,
            erase_to_previous_nearest: self.erase_to_previous_nearest,
            erase_to_next_nearest: self.erase_to_next_nearest,
            search_up: self.search_up,
        }
    }
}

impl Configuration {
    /// Chunk sizes are positive, no word break character is listed twice, and
    /// every style holds only known attributes.
    pub open spec fn wf(&self) -> bool {
        &&& self.search_result_chunk_size > 0
        &&& self.search_load_chunk_size > 0
        &&& self.word_break_chars@.no_duplicates()
        &&& self.active_item_style.wf()
        &&& self.inactive_item_style.wf()
        &&& self.prefix_style.wf()
        &&& self.active_char_style.wf()
        &&& self.inactive_char_style.wf()
        &&& self.focus_prefix_style.wf()
        &&& self.focus_active_char_style.wf()
        &&& self.focus_inactive_char_style.wf()
        &&& self.defocus_prefix_style.wf()
        &&& self.defocus_active_char_style.wf()
        &&& self.defocus_inactive_char_style.wf()
        &&& self.curly_brackets_style.wf()
        &&& self.square_brackets_style.wf()
        &&& self.key_style.wf()
        &&& self.string_value_style.wf()
        &&& self.number_value_style.wf()
        &&& self.boolean_value_style.wf()
        &&& self.null_value_style.wf()
    }
}

/// A refused document: the field at fault, why, and the offending token.
#[derive(Clone, Debug, PartialEq, Eq)]
pub struct ConfigError {
    pub field: String,
    pub kind: ErrorKind,
    pub token: String,
}

pub struct ConfigErrorModel {
    pub field: Seq<char>,
    pub kind: ErrorKind,
    pub token: Seq<char>,
}

impl View for ConfigError {
    type V = ConfigErrorModel;

    open spec fn view(&self) -> ConfigErrorModel {
        ConfigErrorModel { field: self.field@, kind: self.kind, token: self.token@ }
    }
}

/// The failure of a field's value, placed at that field.
pub open spec fn at_field(field: Seq<char>, f: FailureModel) -> ConfigErrorModel {
    ConfigErrorModel { field, kind: f.kind, token: f.token }
}

/// The names of the document's top-level fields.
pub open spec fn known_field(name: Seq<char>) -> bool {
    name == "query_debounce_duration_ms"@
    || name == "resize_debounce_duration_ms"@
    || name == "search_result_chunk_size"@
    || name == "search_load_chunk_size"@
    || name == "active_item_style"@
    || name == "inactive_item_style"@
    || name == "prefix_style"@
    || name == "active_char_style"@
    || name == "inactive_char_style"@
    || name == "focus_prefix"@
    || name == "focus_prefix_style"@
    || name == "focus_active_char_style"@
    || name == "focus_inactive_char_style"@
    || name == "defocus_prefix"@
    || name == "defocus_prefix_style"@
    || name == "defocus_active_char_style"@
    || name == "defocus_inactive_char_style"@
    || name == "curly_brackets_style"@
    || name == "square_brackets_style"@
    || name == "key_style"@
    || name == "string_value_style"@
    || name == "number_value_style"@
    || name == "boolean_value_style"@
    || name == "null_value_style"@
    || name == "word_break_chars"@
    || name == "spin_duration_ms"@
    || name == "move_to_tail"@
    || name == "move_to_head"@
    || name == "backward"@
    || name == "forward"@
    || name == "completion"@
    || name == "move_to_next_nearest"@
    || name == "move_to_previous_nearest"@
    || name == "erase"@
    || name == "erase_all"@
    || name == "erase_to_previous_nearest"@
    || name == "erase_to_next_nearest"@
    || name == "search_up"@
}

pub fn is_known_field(name: &str) -> (r: bool)
    ensures
        r == known_field(name@),
{
    text_eq(name, "query_debounce_duration_ms")
        || text_eq(name, "resize_debounce_duration_ms")
        || text_eq(name, "search_result_chunk_size")
        || text_eq(name, "search_load_chunk_size")
        || text_eq(name, "active_item_style")
        || text_eq(name, "inactive_item_style")
        || text_eq(name, "prefix_style")
        || text_eq(name, "active_char_style")
        || text_eq(name, "inactive_char_style")
        || text_eq(name, "focus_prefix")
        || text_eq(name, "focus_prefix_style")
        || text_eq(name, "focus_active_char_style")
        || text_eq(name, "focus_inactive_char_style")
        || text_eq(name, "defocus_prefix")
        || text_eq(name, "defocus_prefix_style")
        || text_eq(name, "defocus_active_char_style")
        || text_eq(name, "defocus_inactive_char_style")
        || text_eq(name, "curly_brackets_style")
        || text_eq(name, "square_brackets_style")
        || text_eq(name, "key_style")
        || text_eq(name, "string_value_style")
        || text_eq(name, "number_value_style")
        || text_eq(name, "boolean_value_style")
        || text_eq(name, "null_value_style")
        || text_eq(name, "word_break_chars")
        || text_eq(name, "spin_duration_ms")
        || text_eq(name, "move_to_tail")
        || text_eq(name, "move_to_head")
        || text_eq(name, "backward")
        || text_eq(name, "forward")
        || text_eq(name, "completion")
        || text_eq(name, "move_to_next_nearest")
        || text_eq(name, "move_to_previous_nearest")
        || text_eq(name, "erase")
        || text_eq(name, "erase_all")
        || text_eq(name, "erase_to_previous_nearest")
        || text_eq(name, "erase_to_next_nearest")
        || text_eq(name, "search_up")
}

/// The configuration with one document field read in over it.
pub open spec fn config_entry(c: ConfigModel, name: Seq<char>, v: Value) -> Result<ConfigModel, FailureModel> {
    if name == "query_debounce_duration_ms"@ {
        match duration_value(v) {
            Ok(x) => Ok(ConfigModel { query_debounce_duration: x, ..c }),
            Err(e) => Err(e),
        }
    } else if name == "resize_debounce_duration_ms"@ {
        match duration_value(v) {
            Ok(x) => Ok(ConfigModel { resize_debounce_duration: x, ..c }),
            Err(e) => Err(e),
        }
    } else if name == "search_result_chunk_size"@ {
        match count_value(v) {
            Ok(x) => Ok(ConfigModel { search_result_chunk_size: x, ..c }),
            Err(e) => Err(e),
        }
    } else if name == "search_load_chunk_size"@ {
        match count_value(v) {
            Ok(x) => Ok(ConfigModel { search_load_chunk_size: x, ..c }),
            Err(e) => Err(e),
        }
    } else if name == "active_item_style"@ {
        match style_value(v) {
            Ok(x) => Ok(ConfigModel { active_item_style: x, ..c }),
            Err(e) => Err(e),
        }
    } else if name == "inactive_item_style"@ {
        match style_value(v) {
            Ok(x) => Ok(ConfigModel { inactive_item_style: x, ..c }),
            Err(e) => Err(e),
        }
    } else if name == "prefix_style"@ {
        match style_value(v) {
            Ok(x) => Ok(ConfigModel { prefix_style: x, ..c }),
            Err(e) => Err(e),
        }
    } else if name == "active_char_style"@ {
        match style_value(v) {
            Ok(x) => Ok(ConfigModel { active_char_style: x, ..c }),
            Err(e) => Err(e),
        }
    } else if name == "inactive_char_style"@ {
        match style_value(v) {
            Ok(x) => Ok(ConfigModel { inactive_char_style: x, ..c }),
            Err(e) => Err(e),
        }
    } else if name == "focus_prefix"@ {
        match text_value(v) {
            Ok(x) => Ok(ConfigModel { focus_prefix: x, ..c }),
            Err(e) => Err(e),
        }
    } else if name == "focus_prefix_style"@ {
        match style_value(v) {
            Ok(x) => Ok(ConfigModel { focus_prefix_style: x, ..c }),
            Err(e) => Err(e),
        }
    } else if name == "focus_active_char_style"@ {
        match style_value(v) {
            Ok(x) => Ok(ConfigModel { focus_active_char_style: x, ..c }),
            Err(e) => Err(e),
        }
    } else if name == "focus_inactive_char_style"@ {
        match style_value(v) {
            Ok(x) => Ok(ConfigModel { focus_inactive_char_style: x, ..c }),
            Err(e) => Err(e),
        }
    } else if name == "defocus_prefix"@ {
        match text_value(v) {
            Ok(x) => Ok(ConfigModel { defocus_prefix: x, ..c }),
            Err(e) => Err(e),
        }
    } else if name == "defocus_prefix_style"@ {
        match style_value(v) {
            Ok(x) => Ok(ConfigModel { defocus_prefix_style: x, ..c }),
            Err(e) => Err(e),
        }
    } else if name == "defocus_active_char_style"@ {
        match style_value(v) {
            Ok(x) => Ok(ConfigModel { defocus_active_char_style: x, ..c }),
            Err(e) => Err(e),
        }
    } else if name == "defocus_inactive_char_style"@ {
        match style_value(v) {
            Ok(x) => Ok(ConfigModel { defocus_inactive_char_style: x, ..c }),
            Err(e) => Err(e),
        }
    } else if name == "curly_brackets_style"@ {
        match style_value(v) {
            Ok(x) => Ok(ConfigModel { curly_brackets_style: x, ..c }),
            Err(e) => Err(e),
        }
    } else if name == "square_brackets_style"@ {
        match style_value(v) {
            Ok(x) => Ok(ConfigModel { square_brackets_style: x, ..c }),
            Err(e) => Err(e),
        }
    } else if name == "key_style"@ {
        match style_value(v) {
            Ok(x) => Ok(ConfigModel { key_style: x, ..c }),
            Err(e) => Err(e),
        }
    } else if name == "string_value_style"@ {
        match style_value(v) {
            Ok(x) => Ok(ConfigModel { string_value_style: x, ..c }),
            Err(e) => Err(e),
        }
    } else if name == "number_value_style"@ {
        match style_value(v) {
            Ok(x) => Ok(ConfigModel { number_value_style: x, ..c }),
            Err(e) => Err(e),
        }
    } else if name == "boolean_value_style"@ {
        match style_value(v) {
            Ok(x) => Ok(ConfigModel { boolean_value_style: x, ..c }),
            Err(e) => Err(e),
        }
    } else if name == "null_value_style"@ {
        match style_value(v) {
            Ok(x) => Ok(ConfigModel { null_value_style: x, ..c }),
            Err(e) => Err(e),
        }
    } else if name == "word_break_chars"@ {
        match char_set_value(v) {
            Ok(x) => Ok(ConfigModel { word_break_chars: x, ..c }),
            Err(e) => Err(e),
        }
    } else if name == "spin_duration_ms"@ {
        match duration_value(v) {
            Ok(x) => Ok(ConfigModel { spin_duration: x, ..c }),
            Err(e) => Err(e),
        }
    } else if name == "move_to_tail"@ {
        match chord_value(v) {
            Ok(x) => Ok(ConfigModel { move_to_tail: x, ..c }),
            Err(e) => Err(e),
        }
    } else if name == "move_to_head"@ {
        match chord_value(v) {
            Ok(x) => Ok(ConfigModel { move_to_head: x, ..c }),
            Err(e) => Err(e),
        }
    } else if name == "backward"@ {
        match chord_value(v) {
            Ok(x) => Ok(ConfigModel { backward: x, ..c }),
            Err(e) => Err(e),
        }
    } else if name == "forward"@ {
        match chord_value(v) {
            Ok(x) => Ok(ConfigModel { forward: x, ..c }),
            Err(e) => Err(e),
        }
    } else if name == "completion"@ {
        match chord_value(v) {
            Ok(x) => Ok(ConfigModel { completion: x, ..c }),
            Err(e) => Err(e),
        }
    } else if name == "move_to_next_nearest"@ {
        match chord_value(v) {
            Ok(x) => Ok(ConfigModel { move_to_next_nearest: x, ..c }),
            Err(e) => Err(e),
        }
    } else if name == "move_to_previous_nearest"@ {
        match chord_value(v) {
            Ok(x) => Ok(ConfigModel { move_to_previous_nearest: x, ..c }),
            Err(e) => Err(e),
        }
    } else if name == "erase"@ {
        match chord_value(v) {
            Ok(x) => Ok(ConfigModel { erase: x, ..c }),
            Err(e) => Err(e),
        }
    } else if name == "erase_all"@ {
        match chord_value(v) {
            Ok(x) => Ok(ConfigModel { erase_all: x, ..c }),
            Err(e) => Err(e),
        }
    } else if name == "erase_to_previous_nearest"@ {
        match chord_value(v) {
            Ok(x) => Ok(ConfigModel { erase_to_previous_nearest: x, ..c }),
            Err(e) => Err(e),
        }
    } else if name == "erase_to_next_nearest"@ {
        match chord_value(v) {
            Ok(x) => Ok(ConfigModel { erase_to_next_nearest: x, ..c }),
            Err(e) => Err(e),
        }
    } else if name == "search_up"@ {
        match chord_value(v) {
            Ok(x) => Ok(ConfigModel { search_up: x, ..c }),
            Err(e) => Err(e),
        }
    } else {
        Err(fail(ErrorKind::UnknownField, name))
    }
}

fn read_entry(cfg: &mut Configuration, name: &str, v: &Value) -> (r: Result<(), Failure>)
    requires
        old(cfg).wf(),
    ensures
        match config_entry(old(cfg)@, name@, *v) {
            Ok(next) => r is Ok && final(cfg)@ == next && final(cfg).wf(),
            Err(e) => r is Err && r->Err_0@ == e,
        },
{
    if text_eq(name, "query_debounce_duration_ms") {
        cfg.query_debounce_duration = parse_duration(v)?;
    } else if text_eq(name, "resize_debounce_duration_ms") {
        cfg.resize_debounce_duration = parse_duration(v)?;
    } else if text_eq(name, "search_result_chunk_size") {
        cfg.search_result_chunk_size = parse_count(v)?;
    } else if text_eq(name, "search_load_chunk_size") {
        cfg.search_load_chunk_size = parse_count(v)?;
    } else if text_eq(name, "active_item_style") {
        cfg.active_item_style = parse_style(v)?;
    } else if text_eq(name, "inactive_item_style") {
        cfg.inactive_item_style = parse_style(v)?;
    } else if text_eq(name, "prefix_style") {
        cfg.prefix_style = parse_style(v)?;
    } else if text_eq(name, "active_char_style") {
        cfg.active_char_style = parse_style(v)?;
    } else if text_eq(name, "inactive_char_style") {
        cfg.inactive_char_style = parse_style(v)?;
    } else if text_eq(name, "focus_prefix") {
        cfg.focus_prefix = parse_text(v)?;
    } else if text_eq(name, "focus_prefix_style") {
        cfg.focus_prefix_style = parse_style(v)?;
    } else if text_eq(name, "focus_active_char_style") {
        cfg.focus_active_char_style = parse_style(v)?;
    } else if text_eq(name, "focus_inactive_char_style") {
        cfg.focus_inactive_char_style = parse_style(v)?;
    } else if text_eq(name, "defocus_prefix") {
        cfg.defocus_prefix = parse_text(v)?;
    } else if text_eq(name, "defocus_prefix_style") {
        cfg.defocus_prefix_style = parse_style(v)?;
    } else if text_eq(name, "defocus_active_char_style") {
        cfg.defocus_active_char_style = parse_style(v)?;
    } else if text_eq(name, "defocus_inactive_char_style") {
        cfg.defocus_inactive_char_style = parse_style(v)?;
    } else if text_eq(name, "curly_brackets_style") {
        cfg.curly_brackets_style = parse_style(v)?;
    } else if text_eq(name, "square_brackets_style") {
        cfg.square_brackets_style = parse_style(v)?;
    } else if text_eq(name, "key_style") {
        cfg.key_style = parse_style(v)?;
    } else if text_eq(name, "string_value_style") {
        cfg.string_value_style = parse_style(v)?;
    } else if text_eq(name, "number_value_style") {
        cfg.number_value_style = parse_style(v)?;
    } else if text_eq(name, "boolean_value_style") {
        cfg.boolean_value_style = parse_style(v)?;
    } else if text_eq(name, "null_value_style") {
        cfg.null_value_style = parse_style(v)?;
    } else if text_eq(name, "word_break_chars") {
        cfg.word_break_chars = parse_char_set(v)?;
    } else if text_eq(name, "spin_duration_ms") {
        cfg.spin_duration = parse_duration(v)?;
    } else if text_eq(name, "move_to_tail") {
        cfg.move_to_tail = parse_chord(v)?;
    } else if text_eq(name, "move_to_head") {
        cfg.move_to_head = parse_chord(v)?;
    } else if text_eq(name, "backward") {
        cfg.backward = parse_chord(v)?;
    } else if text_eq(name, "forward") {
        cfg.forward = parse_chord(v)?;
    } else if text_eq(name, "completion") {
        cfg.completion = parse_chord(v)?;
    } else if text_eq(name, "move_to_next_nearest") {
        cfg.move_to_next_nearest = parse_chord(v)?;
    } else if text_eq(name, "move_to_previous_nearest") {
        cfg.move_to_previous_nearest = parse_chord(v)?;
    } else if text_eq(name, "erase") {
        cfg.erase = parse_chord(v)?;
    } else if text_eq(name, "erase_all") {
        cfg.erase_all = parse_chord(v)?;
    } else if text_eq(name, "erase_to_previous_nearest") {
        cfg.erase_to_previous_nearest = parse_chord(v)?;
    } else if text_eq(name, "erase_to_next_nearest") {
        cfg.erase_to_next_nearest = parse_chord(v)?;
    } else if text_eq(name, "search_up") {
        cfg.search_up = parse_chord(v)?;
    } else {
        return Err(Failure::new(ErrorKind::UnknownField, name));
    }
    Ok(())
}

/// A style with the given colors, no underline color, and the given attribute bits.
pub open spec fn colored_spec(fg: Option<Color>, bg: Option<Color>, bits: u32) -> Style {
    Style { foreground: fg, background: bg, underline: None, attributes: AttributeSet { bits } }
}

fn colored(fg: Option<Color>, bg: Option<Color>, attributes: AttributeSet) -> (r: Style)
    ensures
        r == colored_spec(fg, bg, attributes.bits),
{
    Style { foreground: fg, background: bg, underline: None, attributes }
}

/// The built-in configuration: the value when no document is given, and the
/// base that a document's fields are laid over.
pub open spec fn default_model() -> ConfigModel {
    ConfigModel {
        query_debounce_duration: Duration { millis: 600 },
        resize_debounce_duration: Duration { millis: 200 },
        search_result_chunk_size: 100,
        search_load_chunk_size: 50000,
        focus_prefix: "❯❯ "@,
        defocus_prefix: "▼"@,
        word_break_chars: set!['.', '|', '(', ')', '[', ']'],
        spin_duration: Duration { millis: 300 },
        active_item_style: colored_spec(Some(Color::Grey), Some(Color::Yellow), 0),
        inactive_item_style: colored_spec(Some(Color::Grey), None, 0),
        prefix_style: colored_spec(Some(Color::Blue), None, 0),
        active_char_style: colored_spec(None, Some(Color::Magenta), 0),
        inactive_char_style: colored_spec(None, None, 0),
        focus_prefix_style: colored_spec(Some(Color::Blue), None, 0),
        focus_active_char_style: colored_spec(None, Some(Color::Magenta), 0),
        focus_inactive_char_style: colored_spec(None, None, 0),
        defocus_prefix_style: colored_spec(Some(Color::Blue), None, attr_bit(Attribute::Dim)),
        defocus_active_char_style: colored_spec(None, None, attr_bit(Attribute::Dim)),
        defocus_inactive_char_style: colored_spec(None, None, attr_bit(Attribute::Dim)),
        curly_brackets_style: colored_spec(None, None, attr_bit(Attribute::Bold)),
        square_brackets_style: colored_spec(None, None, attr_bit(Attribute::Bold)),
        key_style: colored_spec(Some(Color::Cyan), None, 0),
        string_value_style: colored_spec(Some(Color::Green), None, 0),
        number_value_style: colored_spec(None, None, 0),
        boolean_value_style: colored_spec(None, None, 0),
        null_value_style: colored_spec(Some(Color::Grey), None, 0),
        move_to_tail: KeyChord { code: KeyCode::Char('e'), modifiers: KeyModifiers { bits: 2 } },
        move_to_head: KeyChord { code: KeyCode::Char('a'), modifiers: KeyModifiers { bits: 2 } },
        backward: KeyChord { code: KeyCode::Left, modifiers: KeyModifiers { bits: 0 } },
        forward: KeyChord { code: KeyCode::Right, modifiers: KeyModifiers { bits: 0 } },
        completion: KeyChord { code: KeyCode::Tab, modifiers: KeyModifiers { bits: 0 } },
        move_to_next_nearest: KeyChord { code: KeyCode::Char('f'), modifiers: KeyModifiers { bits: 4 } },
        move_to_previous_nearest: KeyChord { code: KeyCode::Char('b'), modifiers: KeyModifiers { bits: 4 } },
        erase: KeyChord { code: KeyCode::Backspace, modifiers: KeyModifiers { bits: 0 } },
        erase_all: KeyChord { code: KeyCode::Char('u'), modifiers: KeyModifiers { bits: 2 } },
        erase_to_previous_nearest: KeyChord { code: KeyCode::Char('w'), modifiers: KeyModifiers { bits: 2 } },
        erase_to_next_nearest: KeyChord { code: KeyCode::Char('d'), modifiers: KeyModifiers { bits: 2 } },
        search_up: KeyChord { code: KeyCode::Up, modifiers: KeyModifiers { bits: 0 } },
    }
}

impl Default for Configuration {
    fn default() -> (r: Configuration)
        ensures
            r@ == default_model(),
            r.wf(),
    {
        let mut word_break_chars: Vec<char> = Vec::new();
        word_break_chars.push('.');
        word_break_chars.push('|');
        word_break_chars.push('(');
        word_break_chars.push(')');
        word_break_chars.push('[');
        word_break_chars.push(']');
        let r = Configuration {
            query_debounce_duration: Duration::from_millis(600),
            resize_debounce_duration: Duration::from_millis(200),
            search_result_chunk_size: 100,
            search_load_chunk_size: 50000,
            focus_prefix: String::from_str("❯❯ "),
            defocus_prefix: String::from_str("▼"),
            word_break_chars,
            spin_duration: Duration::from_millis(300),
            active_item_style: colored(Some(Color::Grey), Some(Color::Yellow), AttributeSet::empty()),
            inactive_item_style: colored(Some(Color::Grey), None, AttributeSet::empty()),
            prefix_style: colored(Some(Color::Blue), None, AttributeSet::empty()),
            active_char_style: colored(None, Some(Color::Magenta), AttributeSet::empty()),
            inactive_char_style: colored(None, None, AttributeSet::empty()),
            focus_prefix_style: colored(Some(Color::Blue), None, AttributeSet::empty()),
            focus_active_char_style: colored(None, Some(Color::Magenta), AttributeSet::empty()),
            focus_inactive_char_style: colored(None, None, AttributeSet::empty()),
            defocus_prefix_style: colored(Some(Color::Blue), None, AttributeSet::empty().with(Attribute::Dim)),
            defocus_active_char_style: colored(None, None, AttributeSet::empty().with(Attribute::Dim)),
            defocus_inactive_char_style: colored(None, None, AttributeSet::empty().with(Attribute::Dim)),
            curly_brackets_style: colored(None, None, AttributeSet::empty().with(Attribute::Bold)),
            square_brackets_style: colored(None, None, AttributeSet::empty().with(Attribute::Bold)),
            key_style: colored(Some(Color::Cyan), None, AttributeSet::empty()),
            string_value_style: colored(Some(Color::Green), None, AttributeSet::empty()),
            number_value_style: colored(None, None, AttributeSet::empty()),
            boolean_value_style: colored(None, None, AttributeSet::empty()),
            null_value_style: colored(Some(Color::Grey), None, AttributeSet::empty()),
            move_to_tail: KeyChord::new(KeyCode::Char('e'), KeyModifiers::control()),
            move_to_head: KeyChord::new(KeyCode::Char('a'), KeyModifiers::control()),
            backward: KeyChord::new(KeyCode::Left, KeyModifiers::none()),
            forward: KeyChord::new(KeyCode::Right, KeyModifiers::none()),
            completion: KeyChord::new(KeyCode::Tab, KeyModifiers::none()),
            move_to_next_nearest: KeyChord::new(KeyCode::Char('f'), KeyModifiers::alt()),
            move_to_previous_nearest: KeyChord::new(KeyCode::Char('b'), KeyModifiers::alt()),
            erase: KeyChord::new(KeyCode::Backspace, KeyModifiers::none()),
            erase_all: KeyChord::new(KeyCode::Char('u'), KeyModifiers::control()),
            erase_to_previous_nearest: KeyChord::new(KeyCode::Char('w'), KeyModifiers::control()),
            erase_to_next_nearest: KeyChord::new(KeyCode::Char('d'), KeyModifiers::control()),
            search_up: KeyChord::new(KeyCode::Up, KeyModifiers::none()),
        };
        proof {
            let w = r.word_break_chars@;
            assert(w =~= seq!['.', '|', '(', ')', '[', ']']);
            assert(w.to_set() =~= set!['.', '|', '(', ')', '[', ']']) by {
                assert(w[0] == '.' && w[1] == '|' && w[2] == '(' && w[3] == ')' && w[4] == '['
                    && w[5] == ']');
            }
        }
        r
    }
}

/// The first top-level name from position `i` on that the schema does not know.
pub open spec fn first_unknown(es: Seq<(String, Value)>, i: int) -> Option<Seq<char>>
    decreases es.len() - i,
{
    if i >= es.len() || i < 0 {
        None
    } else if !known_field(es[i].0@) {
        Some(es[i].0@)
    } else {
        first_unknown(es, i + 1)
    }
}

/// The configuration after reading the entries from position `i` on over `c`,
/// or the first field that fails.
pub open spec fn entries_from(c: ConfigModel, es: Seq<(String, Value)>, i: int) -> Result<
    ConfigModel,
    ConfigErrorModel,
>
    decreases es.len() - i,
{
    if i >= es.len() || i < 0 {
        Ok(c)
    } else {
        match config_entry(c, es[i].0@, es[i].1) {
            Ok(next) => entries_from(next, es, i + 1),
            Err(f) => Err(at_field(es[i].0@, f)),
        }
    }
}

/// What a document yields: refused at its first unknown field name, else the
/// defaults with each field of the document read over them in order.
pub open spec fn parse_document(doc: Value) -> Result<ConfigModel, ConfigErrorModel> {
    match doc {
        Value::Table(es) => match first_unknown(es@, 0) {
            Some(name) => Err(at_field(name, fail(ErrorKind::UnknownField, name))),
            None => entries_from(default_model(), es@, 0),
        },
        _ => Err(at_field(Seq::empty(), fail(ErrorKind::MalformedStructure, value_token(doc)))),
    }
}

impl Configuration {
    /// Reads a configuration document: a table of top-level fields, each laid
    /// over the built-in default.
    pub fn from_document(doc: &Value) -> (r: Result<Configuration, ConfigError>)
        ensures
            match parse_document(*doc) {
                Ok(m) => r is Ok && r->Ok_0@ == m && r->Ok_0.wf(),
                Err(e) => r is Err && r->Err_0@ == e,
            },
    {
        match doc {
            Value::Table(es) => {
                let mut i: usize = 0;
                while i < es.len()
                    invariant
                        i <= es@.len(),
                        *doc == Value::Table(*es),
                        first_unknown(es@, 0) == first_unknown(es@, i as int),
                    decreases es@.len() - i,
                {
                    let name = es[i].0.as_str();
                    if !is_known_field(name) {
                        return Err(
                            ConfigError {
                                field: name.to_owned(),
                                kind: ErrorKind::UnknownField,
                                token: name.to_owned(),
                            },
                        );
                    }
                    i = i + 1;
                }
                let mut cfg = Configuration::default();
                let mut i: usize = 0;
                while i < es.len()
                    invariant
                        i <= es@.len(),
                        *doc == Value::Table(*es),
                        first_unknown(es@, 0) is None,
                        cfg.wf(),
                        entries_from(default_model(), es@, 0) == entries_from(cfg@, es@, i as int),
                    decreases es@.len() - i,
                {
                    let entry = &es[i];
                    match read_entry(&mut cfg, entry.0.as_str(), &entry.1) {
                        Ok(()) => {},
                        Err(f) => {
                            return Err(ConfigError { field: entry.0.clone(), kind: f.kind, token: f.token });
                        },
                    }
                    i = i + 1;
                }
                Ok(cfg)
            },
            _ => Err(
                ConfigError {
                    field: String::new(),
                    kind: ErrorKind::MalformedStructure,
                    token: describe(doc),
                },
            ),
        }
    }
}

proof fn lemma_first_unknown(es: Seq<(String, Value)>, i: int, k: int)
    requires
        0 <= i <= k < es.len(),
        !known_field(es[k].0@),
        forall|j: int| 0 <= j < k ==> known_field(#[trigger] es[j].0@),
    ensures
        first_unknown(es, i) == Some(es[k].0@),
    decreases k - i,
{
    if i < k {
        lemma_first_unknown(es, i + 1, k);
    }
}

/// A document with nothing in it yields the built-in configuration.
pub proof fn lemma_empty_document(doc: Value)
    requires
        doc matches Value::Table(es) && es@.len() == 0,
    ensures
        parse_document(doc) == Ok::<ConfigModel, ConfigErrorModel>(default_model()),
{
}

/// A field name outside the schema fails the whole document with
/// `UnknownField` naming it, whatever valid fields stand around it; where
/// there are several, the first one is named.
pub proof fn lemma_closed_schema(doc: Value, k: int)
    requires
        doc is Table,
        0 <= k < doc->Table_0@.len(),
        !known_field(doc->Table_0@[k].0@),
        forall|j: int| 0 <= j < k ==> known_field(#[trigger] doc->Table_0@[j].0@),
    ensures
        parse_document(doc) == Err::<ConfigModel, ConfigErrorModel>(
            at_field(
                doc->Table_0@[k].0@,
                fail(ErrorKind::UnknownField, doc->Table_0@[k].0@),
            ),
        ),
{
    lemma_first_unknown(doc->Table_0@, 0, k);
}

/// A document that sets only `search_result_chunk_size` to a positive count
/// yields the defaults with that one field changed.
pub proof fn lemma_chunk_size_override(doc: Value, n: i64)
    requires
        doc is Table,
        doc->Table_0@.len() == 1,
        doc->Table_0@[0].0@ == "search_result_chunk_size"@,
        doc->Table_0@[0].1 == Value::Integer(n),
        0 < n <= usize::MAX,
    ensures
        parse_document(doc) == Ok::<ConfigModel, ConfigErrorModel>(
            ConfigModel { search_result_chunk_size: n as usize, ..default_model() },
        ),
{
    let es = doc->Table_0;
    reveal_strlit("query_debounce_duration_ms");
    reveal_strlit("resize_debounce_duration_ms");
    reveal_strlit("search_result_chunk_size");
    assert(known_field(es@[0].0@));
    assert(first_unknown(es@, 1) is None);
    assert("query_debounce_duration_ms"@.len() != "search_result_chunk_size"@.len());
    assert("resize_debounce_duration_ms"@.len() != "search_result_chunk_size"@.len());
    let next = ConfigModel { search_result_chunk_size: n as usize, ..default_model() };
    assert(count_value(es@[0].1) == Ok::<usize, FailureModel>(n as usize));
    assert(config_entry(default_model(), es@[0].0@, es@[0].1) == Ok::<ConfigModel, FailureModel>(
        next,
    ));
    assert(entries_from(next, es@, 1) == Ok::<ConfigModel, ConfigErrorModel>(next));
}

} // verus!
