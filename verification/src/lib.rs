//! Derives a full desktop-application color theme from a small base color
//! palette, and emits it as a structured key/value text document.
//!
//! The crate models colors as exact 8-bit RGBA values, ranks the colors of a
//! base palette by a perceptual contrast metric computed in fixed-point
//! integer arithmetic, and resolves a long ordered sequence of named color
//! derivations into the final theme document.

pub mod color;
pub mod contrast;
pub mod custom;
pub mod errors;
pub mod gamma;
pub mod hex;
pub mod palette;
pub mod telegram;
pub mod theme;
