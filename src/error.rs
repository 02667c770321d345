//! The kinds of configuration error.
use vstd::prelude::*;

verus! {

/// Why a configuration document was refused.
#[derive(Clone, Copy, Debug, PartialEq, Eq, Structural)]
pub enum ErrorKind {
    /// A field name that the schema does not know.
    UnknownField,
    /// A color name that is not recognized.
    UnrecognizedColor,
    /// An attribute name that is not recognized.
    UnrecognizedAttribute,
    /// A key name that is not recognized.
    UnrecognizedKey,
    /// A modifier name or combination that is not recognized.
    UnrecognizedModifier,
    /// A negative or out of range millisecond count.
    InvalidDuration,
    /// A value of the wrong shape.
    MalformedStructure,
}

} // verus!
