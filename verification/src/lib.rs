//! Generation core for the dogrun color theme: hex color parsing and
//! formatting, HSV-based derivation operators, nearest terminal-color
//! matching, and the named-palette resolver.

use vstd::prelude::*;

pub mod conv;
pub mod cterm;
pub mod highlight;

verus! {

/// The failures a palette build can end in. Every one is fatal: the theme is
/// only meaningful as a complete, internally consistent set of colors.
#[derive(Debug)]
pub enum PaletteError {
    /// A color string is not of the form `#rrggbb`.
    InvalidColorFormat(String),
    /// Two palette definitions claim the same name.
    DuplicateColorName(String),
    /// A derived definition references a name that is not yet defined.
    UndefinedColorReference(String),
}

/// The mathematical form of a `PaletteError`: the same three kinds, each
/// carrying the offending name or color string as a character sequence.
pub ghost enum SpecPaletteError {
    InvalidColorFormat(Seq<char>),
    DuplicateColorName(Seq<char>),
    UndefinedColorReference(Seq<char>),
}

impl View for PaletteError {
    type V = SpecPaletteError;

    open spec fn view(&self) -> SpecPaletteError {
        match self {
            PaletteError::InvalidColorFormat(s) => SpecPaletteError::InvalidColorFormat(s@),
            PaletteError::DuplicateColorName(s) => SpecPaletteError::DuplicateColorName(s@),
            PaletteError::UndefinedColorReference(s) => SpecPaletteError::UndefinedColorReference(
                s@,
            ),
        }
    }
}

impl PaletteError {
    /// The offending color name or color string the error carries.
    pub fn subject(&self) -> (s: &str)
        ensures
            (match self@ {
                SpecPaletteError::InvalidColorFormat(n) => s@ == n,
                SpecPaletteError::DuplicateColorName(n) => s@ == n,
                SpecPaletteError::UndefinedColorReference(n) => s@ == n,
            }),
    {
        match self {
            PaletteError::InvalidColorFormat(s) => s.as_str(),
            PaletteError::DuplicateColorName(s) => s.as_str(),
            PaletteError::UndefinedColorReference(s) => s.as_str(),
        }
    }
}

} // verus!
