//! Verified text utilities.
//!
//! The tools this system drives speak only free text: one name per line,
//! `key=value` files, `State:` fields.  These helpers give the decision logic
//! exact, machine-checked string operations: ASCII trimming, equality,
//! prefix and substring tests (also case-insensitive), splitting into lines,
//! and decimal parsing.

use vstd::prelude::*;

verus! {

/// ASCII whitespace: space, tab, carriage return, line feed.
pub open spec fn is_ws(c: char) -> bool {
    c == ' ' || c == '\t' || c == '\r' || c == '\n'
}

/// `s` with leading ASCII whitespace removed.
pub open spec fn trim_start_spec(s: Seq<char>) -> Seq<char>
    decreases s.len(),
{
    if s.len() > 0 && is_ws(s[0]) {
        trim_start_spec(s.drop_first())
    } else {
        s
    }
}

/// `s` with trailing ASCII whitespace removed.
pub open spec fn trim_end_spec(s: Seq<char>) -> Seq<char>
    decreases s.len(),
{
    if s.len() > 0 && is_ws(s[s.len() - 1]) {
        trim_end_spec(s.drop_last())
    } else {
        s
    }
}

/// `s` with leading and trailing ASCII whitespace removed.
pub open spec fn trim_spec(s: Seq<char>) -> Seq<char> {
    trim_end_spec(trim_start_spec(s))
}

proof fn lemma_trim_start_at(s: Seq<char>, a: int)
    requires
        0 <= a <= s.len(),
        forall|j: int| 0 <= j < a ==> is_ws(s[j]),
        a < s.len() ==> !is_ws(s[a]),
    ensures
        trim_start_spec(s) =~= s.subrange(a, s.len() as int),
    decreases s.len(),
{
    if s.len() > 0 && is_ws(s[0]) {
        lemma_trim_start_at(s.drop_first(), a - 1);
        assert(s.drop_first().subrange(a - 1, s.drop_first().len() as int) =~= s.subrange(
            a,
            s.len() as int,
        ));
    } else {
        assert(a == 0);
    }
}

proof fn lemma_trim_end_at(s: Seq<char>, b: int)
    requires
        0 <= b <= s.len(),
        forall|j: int| b <= j < s.len() ==> is_ws(s[j]),
        b > 0 ==> !is_ws(s[b - 1]),
    ensures
        trim_end_spec(s) =~= s.subrange(0, b),
    decreases s.len(),
{
    if s.len() > 0 && is_ws(s[s.len() - 1]) {
        assert(b < s.len());
        lemma_trim_end_at(s.drop_last(), b);
        assert(s.drop_last().subrange(0, b) =~= s.subrange(0, b));
    } else {
        assert(b == s.len());
    }
}

/// Whether `c` is ASCII whitespace.
pub fn is_ws_char(c: char) -> (b: bool)
    ensures
        b == is_ws(c),
{
    c == ' ' || c == '\t' || c == '\r' || c == '\n'
}

/// Removes leading and trailing ASCII whitespace.
pub fn trim(s: &str) -> (r: &str)
    ensures
        r@ == trim_spec(s@),
{
    let n = s.unicode_len();
    let mut a: usize = 0;
    while a < n && is_ws_char(s.get_char(a))
        invariant
            0 <= a <= n,
            n == s@.len(),
            forall|j: int| 0 <= j < a ==> is_ws(s@[j]),
        decreases n - a,
    {
        a = a + 1;
    }
    let mut b: usize = n;
    while b > a && is_ws_char(s.get_char(b - 1))
        invariant
            a <= b <= n,
            n == s@.len(),
            forall|j: int| 0 <= j < a ==> is_ws(s@[j]),
            a < n ==> !is_ws(s@[a as int]),
            forall|j: int| b <= j < n ==> is_ws(s@[j]),
        decreases b,
    {
        b = b - 1;
    }
    proof {
        lemma_trim_start_at(s@, a as int);
        let t = s@.subrange(a as int, n as int);
        if b > a {
            assert(!is_ws(t[b - a - 1]));
        }
        assert(forall|j: int| b - a <= j < t.len() ==> is_ws(#[trigger] t[j]));
        lemma_trim_end_at(t, b - a);
        assert(trim_spec(s@) =~= s@.subrange(a as int, b as int));
    }
    s.substring_char(a, b)
}

/// Character-wise equality of two string slices.
pub fn str_eq(a: &str, b: &str) -> (r: bool)
    ensures
        r == (a@ == b@),
{
    let na = a.unicode_len();
    let nb = b.unicode_len();
    if na != nb {
        proof {
            assert(a@ != b@);
        }
        return false;
    }
    let mut i: usize = 0;
    while i < na
        invariant
            0 <= i <= na,
            na == a@.len(),
            na == b@.len(),
            forall|j: int| 0 <= j < i ==> a@[j] == b@[j],
        decreases na - i,
    {
        if a.get_char(i) != b.get_char(i) {
            proof {
                assert(a@ != b@);
            }
            return false;
        }
        i = i + 1;
    }
    proof {
        assert(a@ =~= b@);
    }
    true
}

/// Whether `p` is a prefix of `s`.
pub open spec fn has_prefix(s: Seq<char>, p: Seq<char>) -> bool {
    s.len() >= p.len() && s.subrange(0, p.len() as int) == p
}

/// Prefix test.
pub fn starts_with_str(s: &str, p: &str) -> (r: bool)
    ensures
        r == has_prefix(s@, p@),
{
    let ns = s.unicode_len();
    let np = p.unicode_len();
    if np > ns {
        return false;
    }
    let mut i: usize = 0;
    while i < np
        invariant
            0 <= i <= np,
            np <= ns,
            ns == s@.len(),
            np == p@.len(),
            forall|j: int| 0 <= j < i ==> s@[j] == p@[j],
        decreases np - i,
    {
        if s.get_char(i) != p.get_char(i) {
            proof {
                assert(s@.subrange(0, p@.len() as int)[i as int] != p@[i as int]);
            }
            return false;
        }
        i = i + 1;
    }
    proof {
        assert(s@.subrange(0, p@.len() as int) =~= p@);
    }
    true
}

/// `n` occurs in `h` starting at position `i`.
pub open spec fn occurs_at(h: Seq<char>, n: Seq<char>, i: int) -> bool {
    0 <= i && i + n.len() <= h.len() && h.subrange(i, i + n.len() as int) == n
}

/// `n` occurs somewhere in `h`.
pub open spec fn contains_seq(h: Seq<char>, n: Seq<char>) -> bool {
    exists|i: int| occurs_at(h, n, i)
}

/// Substring test.
pub fn contains_str(h: &str, n: &str) -> (r: bool)
    ensures
        r == contains_seq(h@, n@),
{
    let nh = h.unicode_len();
    let nn = n.unicode_len();
    if nn > nh {
        return false;
    }
    if nn == 0 {
        proof {
            assert(h@.subrange(0, 0) =~= n@);
            assert(occurs_at(h@, n@, 0));
        }
        return true;
    }
    let mut i: usize = 0;
    while i <= nh - nn
        invariant
            0 < nn <= nh,
            nh == h@.len(),
            nn == n@.len(),
            0 <= i <= nh - nn + 1,
            forall|k: int| 0 <= k < i ==> !occurs_at(h@, n@, k),
        decreases nh - nn + 1 - i,
    {
        let mut j: usize = 0;
        let mut same = true;
        while j < nn
            invariant
                0 <= j <= nn,
                0 <= i <= nh - nn,
                nh == h@.len(),
                nn == n@.len(),
                same ==> forall|t: int| 0 <= t < j ==> h@[i + t] == n@[t],
                !same ==> !occurs_at(h@, n@, i as int),
            decreases nn - j,
        {
            if h.get_char(i + j) != n.get_char(j) {
                proof {
                    if occurs_at(h@, n@, i as int) {
                        assert(h@.subrange(i as int, i + n@.len() as int)[j as int] == n@[j as int]);
                    }
                }
                same = false;
                j = nn;
            } else {
                j = j + 1;
            }
        }
        if same {
            proof {
                assert(h@.subrange(i as int, i + n@.len() as int) =~= n@);
                assert(occurs_at(h@, n@, i as int));
            }
            return true;
        }
        i = i + 1;
    }
    proof {
        assert forall|k: int| occurs_at(h@, n@, k) implies false by {
            assert(0 <= k <= nh - nn);
        }
    }
    false
}

/// ASCII lower-casing of one character; everything outside `A..Z` is kept.
pub open spec fn lower_char(c: char) -> char {
    if 'A' <= c && c <= 'Z' {
        ((c as u8) + 32) as char
    } else {
        c
    }
}

/// ASCII lower-casing of a character sequence.
pub open spec fn lower_seq(s: Seq<char>) -> Seq<char> {
    s.map_values(|c: char| lower_char(c))
}

/// ASCII lower-casing, one character.
pub fn to_lower_char(c: char) -> (r: char)
    ensures
        r == lower_char(c),
{
    if 'A' <= c && c <= 'Z' {
        ((c as u8) + 32) as char
    } else {
        c
    }
}

/// Case-insensitive (ASCII) substring test.
pub fn contains_str_ci(h: &str, n: &str) -> (r: bool)
    ensures
        r == contains_seq(lower_seq(h@), lower_seq(n@)),
{
    let nh = h.unicode_len();
    let nn = n.unicode_len();
    let ghost lh = lower_seq(h@);
    let ghost ln = lower_seq(n@);
    proof {
        assert(lh.len() == h@.len());
        assert(ln.len() == n@.len());
    }
    if nn > nh {
        return false;
    }
    if nn == 0 {
        proof {
            assert(lh.subrange(0, 0) =~= ln);
            assert(occurs_at(lh, ln, 0));
        }
        return true;
    }
    let mut i: usize = 0;
    while i <= nh - nn
        invariant
            0 < nn <= nh,
            nh == lh.len(),
            nn == ln.len(),
            lh == lower_seq(h@),
            ln == lower_seq(n@),
            0 <= i <= nh - nn + 1,
            forall|k: int| 0 <= k < i ==> !occurs_at(lh, ln, k),
        decreases nh - nn + 1 - i,
    {
        let mut j: usize = 0;
        let mut same = true;
        while j < nn
            invariant
                0 <= j <= nn,
                0 <= i <= nh - nn,
                nh == lh.len(),
                nn == ln.len(),
                lh == lower_seq(h@),
                ln == lower_seq(n@),
                same ==> forall|t: int| 0 <= t < j ==> lh[i + t] == ln[t],
                !same ==> !occurs_at(lh, ln, i as int),
            decreases nn - j,
        {
            if to_lower_char(h.get_char(i + j)) != to_lower_char(n.get_char(j)) {
                proof {
                    if occurs_at(lh, ln, i as int) {
                        assert(lh.subrange(i as int, i + ln.len() as int)[j as int]
                            == ln[j as int]);
                    }
                }
                same = false;
                j = nn;
            } else {
                j = j + 1;
            }
        }
        if same {
            proof {
                assert(lh.subrange(i as int, i + ln.len() as int) =~= ln);
                assert(occurs_at(lh, ln, i as int));
            }
            return true;
        }
        i = i + 1;
    }
    proof {
        assert forall|k: int| occurs_at(lh, ln, k) implies false by {
            assert(0 <= k <= nh - nn);
        }
    }
    false
}

/// Position of the first occurrence of `sep` in `s`, or `s.len()` if absent.
pub open spec fn first_sep(s: Seq<char>, sep: char) -> nat
    decreases s.len(),
{
    if s.len() == 0 {
        0
    } else if s[0] == sep {
        0
    } else {
        1 + first_sep(s.drop_first(), sep)
    }
}

/// The segments of `s` between occurrences of `sep`, with Rust's `split`
/// semantics: an empty input gives one empty segment, a trailing separator a
/// trailing empty segment.
pub open spec fn split_spec(s: Seq<char>, sep: char) -> Seq<Seq<char>>
    decreases s.len(),
{
    let i = first_sep(s, sep);
    if i >= s.len() {
        seq![s]
    } else {
        seq![s.subrange(0, i as int)] + split_spec(s.subrange(i as int + 1, s.len() as int), sep)
    }
}

/// The lines of `s`: the segments between `'\n'` characters, without a
/// trailing empty segment (so a final newline produces no extra line).
pub open spec fn lines_spec(s: Seq<char>) -> Seq<Seq<char>> {
    let segs = split_spec(s, '\n');
    if segs[segs.len() - 1].len() == 0 {
        segs.drop_last()
    } else {
        segs
    }
}

/// The views of a vector of strings.
pub open spec fn views_of(v: Seq<String>) -> Seq<Seq<char>> {
    v.map_values(|x: String| x@)
}

proof fn lemma_first_sep_at(s: Seq<char>, sep: char, k: int)
    requires
        0 <= k <= s.len(),
        forall|j: int| 0 <= j < k ==> s[j] != sep,
        k < s.len() ==> s[k] == sep,
    ensures
        first_sep(s, sep) == k,
    decreases s.len(),
{
    if s.len() == 0 || s[0] == sep {
    } else {
        lemma_first_sep_at(s.drop_first(), sep, k - 1);
    }
}

proof fn lemma_split_spec_len(s: Seq<char>, sep: char)
    ensures
        split_spec(s, sep).len() >= 1,
    decreases s.len(),
{
    let i = first_sep(s, sep);
    if i < s.len() {
        lemma_split_spec_len(s.subrange(i as int + 1, s.len() as int), sep);
    }
}

/// Splits `s` on the separator character, Rust `split` semantics.
pub fn split_char(s: &str, sep: char) -> (r: Vec<String>)
    ensures
        views_of(r@) == split_spec(s@, sep),
{
    let n = s.unicode_len();
    let mut r: Vec<String> = Vec::new();
    let mut p: usize = 0;
    let mut done = false;
    proof {
        assert(s@.subrange(0, n as int) =~= s@);
    }
    while !done
        invariant
            0 <= p <= n,
            n == s@.len(),
            !done ==> views_of(r@) + split_spec(s@.subrange(p as int, n as int), sep)
                =~= split_spec(s@, sep),
            done ==> views_of(r@) =~= split_spec(s@, sep),
        decreases n - p + 1, (if done { 0int } else { 1int }),
    {
        let ghost rest = s@.subrange(p as int, n as int);
        let mut i: usize = p;
        while i < n && s.get_char(i) != sep
            invariant
                p <= i <= n,
                n == s@.len(),
                forall|j: int| p <= j < i ==> s@[j] != sep,
            decreases n - i,
        {
            i = i + 1;
        }
        proof {
            assert(forall|j: int| 0 <= j < i - p ==> rest[j] != sep);
            if i < n {
                assert(rest[i - p] == sep);
            }
            lemma_first_sep_at(rest, sep, i - p);
        }
        let seg = s.substring_char(p, i);
        r.push(String::from_str(seg));
        if i == n {
            proof {
                assert(first_sep(rest, sep) >= rest.len());
                assert(split_spec(rest, sep) =~= seq![rest]);
                assert(views_of(r@) =~= views_of(r@.drop_last()) + seq![rest]);
            }
            done = true;
        } else {
            proof {
                assert(split_spec(rest, sep) =~= seq![rest.subrange(0, i - p)] + split_spec(
                    rest.subrange(i - p + 1, rest.len() as int),
                    sep,
                ));
                assert(rest.subrange(i - p + 1, rest.len() as int) =~= s@.subrange(
                    i + 1,
                    n as int,
                ));
                assert(rest.subrange(0, i - p) =~= s@.subrange(p as int, i as int));
                assert(views_of(r@) =~= views_of(r@.drop_last()) + seq![
                    s@.subrange(p as int, i as int),
                ]);
            }
            p = i + 1;
        }
    }
    r
}

/// Splits `s` into lines (segments between `'\n'`, no trailing empty line).
pub fn split_lines(s: &str) -> (r: Vec<String>)
    ensures
        views_of(r@) == lines_spec(s@),
{
    let mut r = split_char(s, '\n');
    proof {
        lemma_split_spec_len(s@, '\n');
    }
    let last_empty = r[r.len() - 1].as_str().is_empty();
    if last_empty {
        let _ = r.pop();
        proof {
            assert(views_of(r@) =~= lines_spec(s@));
        }
    } else {
        proof {
            assert(views_of(r@) =~= lines_spec(s@));
        }
    }
    r
}

/// A decimal digit.
pub open spec fn is_digit(c: char) -> bool {
    '0' <= c && c <= '9'
}

/// Every character of `s` is a decimal digit.
pub open spec fn all_digits(s: Seq<char>) -> bool {
    forall|i: int| 0 <= i < s.len() ==> is_digit(#[trigger] s[i])
}

/// The value of a digit string, most significant digit first.
pub open spec fn digits_val(s: Seq<char>) -> int
    decreases s.len(),
{
    if s.len() == 0 {
        0
    } else {
        digits_val(s.drop_last()) * 10 + (s[s.len() - 1] as int - '0' as int)
    }
}

proof fn lemma_digits_val_nonneg(s: Seq<char>)
    requires
        all_digits(s),
    ensures
        digits_val(s) >= 0,
    decreases s.len(),
{
    if s.len() > 0 {
        assert(all_digits(s.drop_last()));
        lemma_digits_val_nonneg(s.drop_last());
    }
}

proof fn lemma_digits_val_grows(s: Seq<char>, i: int)
    requires
        all_digits(s),
        0 <= i <= s.len(),
    ensures
        digits_val(s) >= digits_val(s.subrange(0, i)),
    decreases s.len() - i,
{
    if i < s.len() {
        let a = s.subrange(0, i);
        let b = s.subrange(0, i + 1);
        assert(b.drop_last() =~= a);
        assert(all_digits(a));
        lemma_digits_val_nonneg(a);
        assert(digits_val(b) == digits_val(a) * 10 + (s[i] as int - '0' as int));
        assert(digits_val(b) >= digits_val(a));
        lemma_digits_val_grows(s, i + 1);
    } else {
        assert(s.subrange(0, i) =~= s);
    }
}

/// Parses a non-empty all-digit string as a `u32`; anything else (empty, a
/// non-digit character, a value above `u32::MAX`) gives `None`.
pub fn parse_u32_dec(s: &str) -> (r: Option<u32>)
    ensures
        r is Some <==> (s@.len() > 0 && all_digits(s@) && digits_val(s@) <= u32::MAX),
        r matches Some(v) ==> v == digits_val(s@),
{
    let n = s.unicode_len();
    if n == 0 {
        return None;
    }
    let mut acc: u64 = 0;
    let mut i: usize = 0;
    while i < n
        invariant
            0 <= i <= n,
            n == s@.len(),
            all_digits(s@.subrange(0, i as int)),
            acc == digits_val(s@.subrange(0, i as int)),
            acc <= u32::MAX,
        decreases n - i,
    {
        let c = s.get_char(i);
        if !(('0' <= c) && (c <= '9')) {
            proof {
                assert(!is_digit(s@[i as int]));
            }
            return None;
        }
        let d: u64 = (c as u32) as u64 - 48;
        proof {
            assert(s@.subrange(0, i + 1).drop_last() =~= s@.subrange(0, i as int));
        }
        let next: u64 = acc * 10 + d;
        if next > 0xFFFF_FFFF {
            proof {
                assert(all_digits(s@.subrange(0, i + 1)));
                assert(digits_val(s@.subrange(0, i + 1)) > u32::MAX);
                if all_digits(s@) {
                    lemma_digits_val_grows(s@, i + 1);
                }
            }
            return None;
        }
        acc = next;
        i = i + 1;
    }
    proof {
        assert(s@.subrange(0, n as int) =~= s@);
    }
    Some(acc as u32)
}

/// Case-insensitive (ASCII) equality.
pub fn eq_ignore_case(a: &str, b: &str) -> (r: bool)
    ensures
        r == (lower_seq(a@) == lower_seq(b@)),
{
    let na = a.unicode_len();
    let nb = b.unicode_len();
    proof {
        assert(lower_seq(a@).len() == a@.len());
        assert(lower_seq(b@).len() == b@.len());
    }
    if na != nb {
        return false;
    }
    let mut i: usize = 0;
    while i < na
        invariant
            0 <= i <= na,
            na == a@.len(),
            na == b@.len(),
            forall|j: int| 0 <= j < i ==> lower_char(a@[j]) == lower_char(b@[j]),
        decreases na - i,
    {
        if to_lower_char(a.get_char(i)) != to_lower_char(b.get_char(i)) {
            proof {
                assert(lower_seq(a@)[i as int] != lower_seq(b@)[i as int]);
            }
            return false;
        }
        i = i + 1;
    }
    proof {
        assert(lower_seq(a@) =~= lower_seq(b@));
    }
    true
}

/// Position of the first ASCII-whitespace character in `s`, or `s.len()`.
pub open spec fn first_ws(s: Seq<char>) -> nat
    decreases s.len(),
{
    if s.len() == 0 {
        0
    } else if is_ws(s[0]) {
        0
    } else {
        1 + first_ws(s.drop_first())
    }
}

/// The whitespace-separated tokens of `s`: maximal runs of non-whitespace
/// characters, in order.
pub open spec fn ws_tokens(s: Seq<char>) -> Seq<Seq<char>>
    decreases s.len(),
{
    if s.len() == 0 {
        Seq::empty()
    } else if is_ws(s[0]) {
        ws_tokens(s.drop_first())
    } else {
        let k = first_ws(s);
        if k >= s.len() {
            seq![s]
        } else {
            seq![s.subrange(0, k as int)] + ws_tokens(s.subrange(k as int, s.len() as int))
        }
    }
}

proof fn lemma_first_ws_at(s: Seq<char>, k: int)
    requires
        0 <= k <= s.len(),
        forall|j: int| 0 <= j < k ==> !is_ws(s[j]),
        k < s.len() ==> is_ws(s[k]),
    ensures
        first_ws(s) == k,
    decreases s.len(),
{
    if s.len() == 0 || is_ws(s[0]) {
    } else {
        lemma_first_ws_at(s.drop_first(), k - 1);
    }
}

proof fn lemma_ws_tokens_skip(s: Seq<char>, p: int)
    requires
        0 <= p <= s.len(),
        forall|j: int| 0 <= j < p ==> is_ws(s[j]),
    ensures
        ws_tokens(s) == ws_tokens(s.subrange(p, s.len() as int)),
    decreases p,
{
    if p > 0 {
        assert(is_ws(s[0]));
        assert(s.drop_first() =~= s.subrange(1, s.len() as int));
        lemma_ws_tokens_skip(s.drop_first(), p - 1);
        assert(s.drop_first().subrange(p - 1, s.drop_first().len() as int) =~= s.subrange(
            p,
            s.len() as int,
        ));
    } else {
        assert(s.subrange(0, s.len() as int) =~= s);
    }
}

/// Splits `s` into its whitespace-separated tokens.
pub fn split_ws_tokens(s: &str) -> (r: Vec<String>)
    ensures
        views_of(r@) == ws_tokens(s@),
{
    let n = s.unicode_len();
    let mut r: Vec<String> = Vec::new();
    let mut p: usize = 0;
    proof {
        assert(s@.subrange(0, n as int) =~= s@);
    }
    while p < n
        invariant
            0 <= p <= n,
            n == s@.len(),
            views_of(r@) + ws_tokens(s@.subrange(p as int, n as int)) =~= ws_tokens(s@),
        decreases n - p,
    {
        let ghost rest0 = s@.subrange(p as int, n as int);
        if is_ws_char(s.get_char(p)) {
            proof {
                assert(rest0.drop_first() =~= s@.subrange(p + 1, n as int));
                assert(ws_tokens(rest0) == ws_tokens(s@.subrange(p + 1, n as int)));
            }
            p = p + 1;
        } else {
            let mut i: usize = p;
            while i < n && !is_ws_char(s.get_char(i))
                invariant
                    p <= i <= n,
                    n == s@.len(),
                    forall|j: int| p <= j < i ==> !is_ws(s@[j]),
                decreases n - i,
            {
                i = i + 1;
            }
            proof {
                assert(forall|j: int| 0 <= j < i - p ==> !is_ws(rest0[j]));
                if i < n {
                    assert(is_ws(rest0[i - p]));
                }
                lemma_first_ws_at(rest0, i - p);
            }
            let tok = s.substring_char(p, i);
            let ghost prev = r@;
            r.push(String::from_str(tok));
            proof {
                assert(views_of(r@) =~= views_of(prev) + seq![tok@]);
                assert(!is_ws(rest0[0]));
                if i == n {
                    assert(first_ws(rest0) >= rest0.len());
                    assert(ws_tokens(rest0) =~= seq![rest0]);
                    assert(rest0 =~= tok@);
                    assert(ws_tokens(s@.subrange(i as int, n as int)) =~= Seq::<
                        Seq<char>,
                    >::empty());
                } else {
                    assert(ws_tokens(rest0) =~= seq![rest0.subrange(0, i - p)] + ws_tokens(
                        rest0.subrange(i - p, rest0.len() as int),
                    ));
                    assert(rest0.subrange(0, i - p) =~= tok@);
                    assert(rest0.subrange(i - p, rest0.len() as int) =~= s@.subrange(
                        i as int,
                        n as int,
                    ));
                }
            }
            p = i;
        }
    }
    proof {
        assert(s@.subrange(n as int, n as int) =~= Seq::<char>::empty());
        assert(ws_tokens(Seq::<char>::empty()) =~= Seq::<Seq<char>>::empty());
        assert(views_of(r@) =~= ws_tokens(s@));
    }
    r
}


/// `s` with every leading occurrence of `c` removed.
pub open spec fn trim_start_char(s: Seq<char>, c: char) -> Seq<char>
    decreases s.len(),
{
    if s.len() > 0 && s[0] == c {
        trim_start_char(s.drop_first(), c)
    } else {
        s
    }
}

/// `s` with every trailing occurrence of `c` removed.
pub open spec fn trim_end_char(s: Seq<char>, c: char) -> Seq<char>
    decreases s.len(),
{
    if s.len() > 0 && s[s.len() - 1] == c {
        trim_end_char(s.drop_last(), c)
    } else {
        s
    }
}

/// `s` with every leading and trailing occurrence of `c` removed.
pub open spec fn trim_char_spec(s: Seq<char>, c: char) -> Seq<char> {
    trim_end_char(trim_start_char(s, c), c)
}

proof fn lemma_trim_start_char_at(s: Seq<char>, c: char, a: int)
    requires
        0 <= a <= s.len(),
        forall|j: int| 0 <= j < a ==> s[j] == c,
        a < s.len() ==> s[a] != c,
    ensures
        trim_start_char(s, c) =~= s.subrange(a, s.len() as int),
    decreases s.len(),
{
    if s.len() > 0 && s[0] == c {
        lemma_trim_start_char_at(s.drop_first(), c, a - 1);
        assert(s.drop_first().subrange(a - 1, s.drop_first().len() as int) =~= s.subrange(
            a,
            s.len() as int,
        ));
    } else {
        assert(a == 0);
    }
}

proof fn lemma_trim_end_char_at(s: Seq<char>, c: char, b: int)
    requires
        0 <= b <= s.len(),
        forall|j: int| b <= j < s.len() ==> s[j] == c,
        b > 0 ==> s[b - 1] != c,
    ensures
        trim_end_char(s, c) =~= s.subrange(0, b),
    decreases s.len(),
{
    if s.len() > 0 && s[s.len() - 1] == c {
        assert(b < s.len());
        lemma_trim_end_char_at(s.drop_last(), c, b);
        assert(s.drop_last().subrange(0, b) =~= s.subrange(0, b));
    } else {
        assert(b == s.len());
    }
}

/// Removes every leading and trailing occurrence of `c` (as `key=value`
/// files quote their values).
pub fn trim_matching(s: &str, c: char) -> (r: &str)
    ensures
        r@ == trim_char_spec(s@, c),
{
    let n = s.unicode_len();
    let mut a: usize = 0;
    while a < n && s.get_char(a) == c
        invariant
            0 <= a <= n,
            n == s@.len(),
            forall|j: int| 0 <= j < a ==> s@[j] == c,
        decreases n - a,
    {
        a = a + 1;
    }
    let mut b: usize = n;
    while b > a && s.get_char(b - 1) == c
        invariant
            a <= b <= n,
            n == s@.len(),
            forall|j: int| 0 <= j < a ==> s@[j] == c,
            a < n ==> s@[a as int] != c,
            forall|j: int| b <= j < n ==> s@[j] == c,
        decreases b,
    {
        b = b - 1;
    }
    proof {
        lemma_trim_start_char_at(s@, c, a as int);
        let t = s@.subrange(a as int, n as int);
        if b > a {
            assert(t[b - a - 1] != c);
        }
        assert(forall|j: int| b - a <= j < t.len() ==> #[trigger] t[j] == c);
        lemma_trim_end_char_at(t, c, b - a);
        assert(trim_char_spec(s@, c) =~= s@.subrange(a as int, b as int));
    }
    s.substring_char(a, b)
}

} // verus!
