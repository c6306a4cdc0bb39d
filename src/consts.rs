//! SGR (Select Graphic Rendition) codes of the ANSI escape sequences.

use vstd::prelude::*;

verus! {

/// SGR value for the reset attribute.
pub const OP_RESET: u8 = 0;

/// SGR value for the bold attribute.
pub const OP_BOLD: u8 = 1;

/// SGR value for the faint attribute.
pub const OP_FAINT: u8 = 2;

/// SGR value for the italic attribute.
pub const OP_ITALIC: u8 = 3;

/// SGR value for the underline attribute.
pub const OP_UNDERLINE: u8 = 4;

/// SGR value for the slow blink attribute.
pub const OP_SLOW_BLINK: u8 = 5;

/// SGR value for the fast blink attribute.
pub const OP_FAST_BLINK: u8 = 6;

/// SGR value for the reverse attribute.
pub const OP_REVERSE: u8 = 7;

/// SGR value for the conceal attribute.
pub const OP_CONCEAL: u8 = 8;

/// SGR value for the strikethrough attribute.
pub const OP_STRIKETHROUGH: u8 = 9;

/// SGR value for the foreground color black.
pub const FG_BLACK: u8 = 30;

/// SGR value for the foreground color red.
pub const FG_RED: u8 = 31;

/// SGR value for the foreground color green.
pub const FG_GREEN: u8 = 32;

/// SGR value for the foreground color yellow.
pub const FG_YELLOW: u8 = 33;

/// SGR value for the foreground color blue.
pub const FG_BLUE: u8 = 34;

/// SGR value for the foreground color magenta.
pub const FG_MAGENTA: u8 = 35;

/// SGR value for the foreground color cyan.
pub const FG_CYAN: u8 = 36;

/// SGR value for the foreground color white.
pub const FG_WHITE: u8 = 37;

/// SGR value for the foreground color gray.
pub const FG_GRAY: u8 = 90;

/// SGR value for the foreground color bright red.
pub const FG_BRIGHT_RED: u8 = 91;

/// SGR value for the foreground color bright green.
pub const FG_BRIGHT_GREEN: u8 = 92;

/// SGR value for the foreground color bright yellow.
pub const FG_BRIGHT_YELLOW: u8 = 93;

/// SGR value for the foreground color bright blue.
pub const FG_BRIGHT_BLUE: u8 = 94;

/// SGR value for the foreground color bright magenta.
pub const FG_BRIGHT_MAGENTA: u8 = 95;

/// SGR value for the foreground color bright cyan.
pub const FG_BRIGHT_CYAN: u8 = 96;

/// SGR value for the foreground color bright white.
pub const FG_BRIGHT_WHITE: u8 = 97;

/// SGR value for the background color black.
pub const BG_BLACK: u8 = 40;

/// SGR value for the background color red.
pub const BG_RED: u8 = 41;

/// SGR value for the background color green.
pub const BG_GREEN: u8 = 42;

/// SGR value for the background color yellow.
pub const BG_YELLOW: u8 = 43;

/// SGR value for the background color blue.
pub const BG_BLUE: u8 = 44;

/// SGR value for the background color magenta.
pub const BG_MAGENTA: u8 = 45;

/// SGR value for the background color cyan.
pub const BG_CYAN: u8 = 46;

/// SGR value for the background color white.
pub const BG_WHITE: u8 = 47;

/// SGR value for the background color gray.
pub const BG_GRAY: u8 = 100;

/// SGR value for the background color bright red.
pub const BG_BRIGHT_RED: u8 = 101;

/// SGR value for the background color bright green.
pub const BG_BRIGHT_GREEN: u8 = 102;

/// SGR value for the background color bright yellow.
pub const BG_BRIGHT_YELLOW: u8 = 103;

/// SGR value for the background color bright blue.
pub const BG_BRIGHT_BLUE: u8 = 104;

/// SGR value for the background color bright magenta.
pub const BG_BRIGHT_MAGENTA: u8 = 105;

/// SGR value for the background color bright cyan.
pub const BG_BRIGHT_CYAN: u8 = 106;

/// SGR value for the background color bright white.
pub const BG_BRIGHT_WHITE: u8 = 107;

} // verus!
