//! Display-string helpers.

use vstd::prelude::*;

verus! {

/// Shortens `s` to at most `max_chars` characters, replacing the cut tail
/// with an ellipsis of three dots (which count against the budget).
pub fn truncate_string(s: &str, max_chars: usize) -> (r: String)
    ensures
        s@.len() <= max_chars ==> r@ == s@,
        s@.len() > max_chars ==> r@ == s@.subrange(
            0,
            if max_chars >= 3 {
                max_chars - 3
            } else {
                0
            },
        ) + "..."@,
{
    let n = s.unicode_len();
    if n > max_chars {
        let keep = if max_chars >= 3 {
            max_chars - 3
        } else {
            0
        };
        String::from_str(s.substring_char(0, keep)).concat("...")
    } else {
        String::from_str(s)
    }
}

/// Cuts `s` to at most `max_chars` characters, with no ellipsis.
pub fn truncate_string_exact(s: &str, max_chars: usize) -> (r: String)
    ensures
        s@.len() <= max_chars ==> r@ == s@,
        s@.len() > max_chars ==> r@ == s@.subrange(0, max_chars as int),
{
    let n = s.unicode_len();
    if n > max_chars {
        String::from_str(s.substring_char(0, max_chars))
    } else {
        String::from_str(s)
    }
}

} // verus!
