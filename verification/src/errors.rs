//! The error taxonomy of palette import and theme derivation.  All errors
//! abort the operation that raised them and propagate as values; only the
//! out-of-range contrast lookup (see `Color::contrast`) degrades gracefully.

use vstd::prelude::*;

verus! {

#[derive(Clone, Copy, Debug, PartialEq, Eq, Structural)]
pub enum ThemeError {
    /// A color string is not a 6- or 8-digit hex form.
    InvalidHexFormat,
    /// A palette resolved to fewer than 16 colors (or to none at all).
    PaletteSizeError,
    /// Explicit palette indices do not form a dense range starting at 0.
    PaletteGapError,
    /// A derivation step referenced a name that was not yet emitted.
    UndefinedReferenceError,
}

impl ThemeError {
    /// A short description of the error.
    pub fn message(&self) -> (s: &'static str)
        ensures
            s@.len() > 0,
    {
        let s = match self {
            ThemeError::InvalidHexFormat => "color is not a 6- or 8-digit hex string",
            ThemeError::PaletteSizeError => "palette has fewer than 16 colors",
            ThemeError::PaletteGapError => "palette indices do not form a dense range from color0",
            ThemeError::UndefinedReferenceError => "reference to a name that is not yet defined",
        };
        proof {
            reveal_strlit("color is not a 6- or 8-digit hex string");
            reveal_strlit("palette has fewer than 16 colors");
            reveal_strlit("palette indices do not form a dense range from color0");
            reveal_strlit("reference to a name that is not yet defined");
        }
        s
    }
}

} // verus!
