//! Keyboard input decoding.  The application reads raw bytes from the
//! terminal; the mapping from byte sequences to keys is decided here.

use vstd::prelude::*;

verus! {

/// One decoded key press.
#[derive(Debug, Clone, Copy, PartialEq, Eq, Structural)]
pub enum Key {
    Up,
    Down,
    Enter,
    Quit,
    Backspace,
    Char(char),
    Unknown,
}

/// Reads key presses; the byte-level reads live with the application.
pub struct InputReader;

/// A printable ASCII byte: alphanumeric or punctuation.
pub open spec fn is_printable_byte(b: u8) -> bool {
    (48 <= b <= 57) || (65 <= b <= 90) || (97 <= b <= 122) || (33 <= b <= 47) || (58 <= b <= 64)
        || (91 <= b <= 96) || (123 <= b <= 126)
}

impl InputReader {
    pub fn new() -> InputReader {
        InputReader
    }

    /// Decodes one key press from the bytes read: the first byte, and — when
    /// it opens an escape sequence — the two that follow, `None` where a
    /// read failed.
    pub fn decode_key(first: u8, second: Option<u8>, third: Option<u8>) -> (k: Key)
        ensures
            first == 0x1b ==> k == (if second == Some(91u8) {
                if third == Some(65u8) {
                    Key::Up
                } else if third == Some(66u8) {
                    Key::Down
                } else {
                    Key::Unknown
                }
            } else {
                Key::Unknown
            }),
            first != 0x1b ==> k == (if first == 10 || first == 13 {
                Key::Enter
            } else if first == 113 || first == 3 {
                Key::Quit
            } else if first == 0x7f || first == 0x08 {
                Key::Backspace
            } else if first == 32 {
                Key::Char(' ')
            } else if is_printable_byte(first) {
                Key::Char(first as char)
            } else {
                Key::Unknown
            }),
    {
        if first == 0x1b {
            if second == Some(91u8) {
                match third {
                    Some(65u8) => Key::Up,
                    Some(66u8) => Key::Down,
                    _ => Key::Unknown,
                }
            } else {
                Key::Unknown
            }
        } else if first == 10 || first == 13 {
            Key::Enter
        } else if first == 113 || first == 3 {
            Key::Quit
        } else if first == 0x7f || first == 0x08 {
            Key::Backspace
        } else if first == 32 {
            Key::Char(' ')
        } else if (48 <= first && first <= 57) || (65 <= first && first <= 90) || (97 <= first
            && first <= 122) || (33 <= first && first <= 47) || (58 <= first && first <= 64) || (91
            <= first && first <= 96) || (123 <= first && first <= 126) {
            Key::Char(first as char)
        } else {
            Key::Unknown
        }
    }
}

} // verus!
