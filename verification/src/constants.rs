//! Values fixed for the whole program, and the settings that the
//! environment may give.

use crate::logger::LogLevel;
use crate::logger::level_named;
use crate::text::{number_of, parse_number, same_text};
use vstd::prelude::*;
use vstd::string::*;

verus! {

/// The version shown in the welcome texts.
pub const VERSION: &'static str = "0.0.1";

/// The number of cells a tab takes when no other width is set.
pub const DEFAULT_TAB_WIDTH: usize = 4;

/// The control byte that a terminal sends for Ctrl and the given key: the
/// low five bits of the key's code. For a small letter this is the letter's
/// place in the alphabet.
pub fn ctrl_key(k: char) -> (byte: u8)
    ensures
        byte == (k as u8) & 0x1f,
        byte < 32,
        'a' <= k <= 'z' ==> byte == k as u8 - 0x60,
{
    let code = k as u8;
    assert(code & 0x1f < 32) by (bit_vector);
    assert(0x61 <= code <= 0x7a ==> code & 0x1f == (code - 0x60) as u8) by (bit_vector);
    code & 0x1f
}

/// Whether reads block, as a setting says: only the text `true` makes them
/// block; without a setting, or with any other text, they time out.
pub open spec fn blocking_read_of(value: Option<&str>) -> bool {
    value matches Some(text) && text@ == "true"@
}

/// The level of the log, as a setting says: the level that the text names;
/// without a setting, or with a text that names none, `Info`.
pub open spec fn log_level_of(value: Option<&str>) -> LogLevel {
    match value {
        Some(text) => match level_named(text@) {
            Some(level) => level,
            None => LogLevel::Info,
        },
        None => LogLevel::Info,
    }
}

/// The width of a tab, as a setting says: the number that the text writes;
/// without a setting, or with a text that writes no number, the default.
pub open spec fn tab_width_of(value: Option<&str>) -> usize {
    match value {
        Some(text) => match number_of(text.spec_bytes()) {
            Some(width) => width,
            None => DEFAULT_TAB_WIDTH,
        },
        None => DEFAULT_TAB_WIDTH,
    }
}

/// Whether reads block, from the setting's text where there is one.
pub fn blocking_read_setting(value: Option<&str>) -> (blocking: bool)
    ensures
        blocking == blocking_read_of(value),
{
    match value {
        Some(text) => same_text(text, "true"),
        None => false,
    }
}

/// The level of the log, from the setting's text where there is one.
pub fn log_level_setting(value: Option<&str>) -> (level: LogLevel)
    ensures
        level == log_level_of(value),
{
    match value {
        Some(text) => LogLevel::from_string_or_default(text),
        None => LogLevel::Info,
    }
}

/// The width of a tab, from the setting's text where there is one.
pub fn tab_width_setting(value: Option<&str>) -> (width: usize)
    ensures
        width == tab_width_of(value),
{
    match value {
        Some(text) => match parse_number(text) {
            Some(width) => width,
            None => DEFAULT_TAB_WIDTH,
        },
        None => DEFAULT_TAB_WIDTH,
    }
}

} // verus!
