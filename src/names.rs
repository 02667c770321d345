//! Color names and modifier expressions, read through crossterm.
use vstd::prelude::*;

use serde::de::IntoDeserializer;
use serde::Deserialize;

use crate::style::Color;

use crossterm::style::Color as Ct;

verus! {

/// The color that crossterm reads from a color name.
pub uninterp spec fn color_of_text(s: Seq<char>) -> Option<Color>;

/// The lower-case palette names and their colors.
pub open spec fn palette_color(s: Seq<char>) -> Option<Color> {
    if s == "reset"@ {
        Some(Color::Reset)
    } else if s == "black"@ {
        Some(Color::Black)
    } else if s == "dark_grey"@ {
        Some(Color::DarkGrey)
    } else if s == "red"@ {
        Some(Color::Red)
    } else if s == "dark_red"@ {
        Some(Color::DarkRed)
    } else if s == "green"@ {
        Some(Color::Green)
    } else if s == "dark_green"@ {
        Some(Color::DarkGreen)
    } else if s == "yellow"@ {
        Some(Color::Yellow)
    } else if s == "dark_yellow"@ {
        Some(Color::DarkYellow)
    } else if s == "blue"@ {
        Some(Color::Blue)
    } else if s == "dark_blue"@ {
        Some(Color::DarkBlue)
    } else if s == "magenta"@ {
        Some(Color::Magenta)
    } else if s == "dark_magenta"@ {
        Some(Color::DarkMagenta)
    } else if s == "cyan"@ {
        Some(Color::Cyan)
    } else if s == "dark_cyan"@ {
        Some(Color::DarkCyan)
    } else if s == "white"@ {
        Some(Color::White)
    } else if s == "grey"@ {
        Some(Color::Grey)
    } else {
        None
    }
}

/// The colors that `early_color_from_text` converts: the first nine variants.
pub open spec fn early_color(c: Color) -> bool {
    c is Reset || c is Black || c is DarkGrey || c is Red || c is DarkRed || c is Green
        || c is DarkGreen || c is Yellow || c is DarkYellow
}

/// Relies on crossterm's `Deserialize` for `style::Color` (palette names in any
/// letter case, `ansi_(n)`, `rgb_(r,g,b)`, `#rrggbb`), whose result depends on
/// the text alone. Gives the color when it is one of the first nine variants.
#[verifier::external_body]
pub(crate) fn early_color_from_text(s: &str) -> (r: Option<Color>)
    ensures
        r == (match color_of_text(s@) {
            Some(c) => if early_color(c) { Some(c) } else { None },
            None => None,
        }),
        palette_color(s@) is Some && early_color(palette_color(s@)->Some_0) ==> r == palette_color(s@),
{
    let d: serde::de::value::StrDeserializer<'_, serde::de::value::Error> = s.into_deserializer();
    Some(match Ct::deserialize(d).ok()? {
        Ct::Reset => Color::Reset,
        Ct::Black => Color::Black,
        Ct::DarkGrey => Color::DarkGrey,
        Ct::Red => Color::Red,
        Ct::DarkRed => Color::DarkRed,
        Ct::Green => Color::Green,
        Ct::DarkGreen => Color::DarkGreen,
        Ct::Yellow => Color::Yellow,
        Ct::DarkYellow => Color::DarkYellow,
        _ => return None,
    })
}

/// Relies on the same `Deserialize` for `style::Color` as
/// `early_color_from_text`. Gives the color when it is one of the other variants.
#[verifier::external_body]
pub(crate) fn late_color_from_text(s: &str) -> (r: Option<Color>)
    ensures
        r == (match color_of_text(s@) {
            Some(c) => if early_color(c) { None } else { Some(c) },
            None => None,
        }),
        palette_color(s@) is Some && !early_color(palette_color(s@)->Some_0) ==> r == palette_color(s@),
{
    let d: serde::de::value::StrDeserializer<'_, serde::de::value::Error> = s.into_deserializer();
    Some(match Ct::deserialize(d).ok()? {
        Ct::Blue => Color::Blue,
        Ct::DarkBlue => Color::DarkBlue,
        Ct::Magenta => Color::Magenta,
        Ct::DarkMagenta => Color::DarkMagenta,
        Ct::Cyan => Color::Cyan,
        Ct::DarkCyan => Color::DarkCyan,
        Ct::White => Color::White,
        Ct::Grey => Color::Grey,
        Ct::Rgb { r, g, b } => Color::Rgb { r, g, b },
        Ct::AnsiValue(n) => Color::AnsiValue(n),
        _ => return None,
    })
}

/// Reads a color name as crossterm does.
pub fn color_from_text(s: &str) -> (r: Option<Color>)
    ensures
        r == color_of_text(s@),
        palette_color(s@) is Some ==> r == palette_color(s@),
{
    let early = early_color_from_text(s);
    let late = late_color_from_text(s);
    match early {
        Some(c) => Some(c),
        None => late,
    }
}

/// The modifier bits that crossterm reads from a modifier expression.
pub uninterp spec fn modifiers_of_text(s: Seq<char>) -> Option<u8>;

/// The single modifier flag names and their bits.
pub open spec fn modifier_flag(s: Seq<char>) -> Option<u8> {
    if s == "SHIFT"@ {
        Some(1u8)
    } else if s == "CONTROL"@ {
        Some(2u8)
    } else if s == "ALT"@ {
        Some(4u8)
    } else if s == "SUPER"@ {
        Some(8u8)
    } else if s == "HYPER"@ {
        Some(16u8)
    } else if s == "META"@ {
        Some(32u8)
    } else if s == "NONE"@ {
        Some(0u8)
    } else {
        None
    }
}

/// A single word of capital letters and underscores, as flag names are written.
pub open spec fn flag_word(s: Seq<char>) -> bool {
    &&& s.len() > 0
    &&& forall|i: int|
        0 <= i < s.len() ==> (('A' as u32) <= (#[trigger] s[i] as u32) <= ('Z' as u32) || s[i]
            == '_')
}

/// Relies on crossterm's `Deserialize` for `event::KeyModifiers`, which reads
/// bitflags' text form (`"CONTROL | ALT"`): a single flag name gives its bits,
/// and a single word that names no flag is refused.
#[verifier::external_body]
pub(crate) fn modifiers_from_text(s: &str) -> (r: Option<u8>)
    ensures
        r == modifiers_of_text(s@),
        modifier_flag(s@) is Some ==> r == modifier_flag(s@),
        flag_word(s@) && modifier_flag(s@) is None ==> r is None,
{
    let d: serde::de::value::StrDeserializer<'_, serde::de::value::Error> = s.into_deserializer();
    match crossterm::event::KeyModifiers::deserialize(d) {
        Ok(m) => Some(m.bits()),
        Err(_) => None,
    }
}

} // verus!
