//! Utilities for styling text on ANSI terminals with "Set Graphics Mode"
//! escape sequences.

pub mod consts;
pub mod escape_sequence;
pub mod style;
