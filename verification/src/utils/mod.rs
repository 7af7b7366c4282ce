//! Building blocks of the mangler: identifier validation and symbol escaping.

pub mod escape;
pub mod validators;
