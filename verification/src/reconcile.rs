//! Listing-output reconciliation: turning the free-text output of several
//! mutually incompatible enumeration commands into a clean set of container
//! names.
//!
//! A failed or half-installed tool emits error prose on the same stream as
//! legitimate data, so every candidate line runs through a strict token
//! validator before it may count as a container name: only alphanumerics,
//! hyphen and underscore, no leading or trailing hyphen, under 50
//! characters, and no error-looking fragment.  Names are then deduplicated
//! across strategies.

use vstd::prelude::*;
use crate::text::{
    contains_seq, contains_str_ci, is_ws, lower_seq, str_eq, trim, trim_spec, views_of,
};

verus! {

/// A character allowed in a container name: ASCII alphanumeric, hyphen or
/// underscore.
pub open spec fn is_name_char(c: char) -> bool {
    ('0' <= c && c <= '9') || ('a' <= c && c <= 'z') || ('A' <= c && c <= 'Z') || c == '-' || c
        == '_'
}

/// A valid container-name token.  Note what this excludes: empty lines,
/// anything of 50 characters or more, anything holding whitespace, `:` or
/// any other special character, leading or trailing hyphens, and tokens that
/// look like tool-error prose.
pub open spec fn valid_container_name(s: Seq<char>) -> bool {
    &&& 0 < s.len() < 50
    &&& (forall|i: int| 0 <= i < s.len() ==> is_name_char(#[trigger] s[i]))
    &&& s[0] != '-'
    &&& s[s.len() - 1] != '-'
    &&& !contains_seq(lower_seq(s), lower_seq("error"@))
    &&& !contains_seq(lower_seq(s), lower_seq("commande"@))
    &&& !contains_seq(lower_seq(s), lower_seq("inconnue"@))
}

/// Law: the name validator.  A valid token holds no whitespace and no colon,
/// and is under 50 characters.
pub proof fn lemma_validator_excludes(s: Seq<char>)
    requires
        valid_container_name(s),
    ensures
        s.len() < 50,
        forall|i: int| 0 <= i < s.len() ==> !is_ws(#[trigger] s[i]),
        forall|i: int| 0 <= i < s.len() ==> s[i] != ':',
{
    assert forall|i: int| 0 <= i < s.len() implies !is_ws(#[trigger] s[i]) && s[i] != ':' by {
        assert(is_name_char(s[i]));
    }
}

/// Decides whether one (already trimmed) output line is a valid container
/// name.
pub fn is_valid_container_name(line: &str) -> (b: bool)
    ensures
        b == valid_container_name(line@),
{
    let n = line.unicode_len();
    if n == 0 || n >= 50 {
        return false;
    }
    let mut i: usize = 0;
    while i < n
        invariant
            0 <= i <= n,
            n == line@.len(),
            forall|j: int| 0 <= j < i ==> is_name_char(#[trigger] line@[j]),
        decreases n - i,
    {
        let c = line.get_char(i);
        let ok = (('0' <= c) && (c <= '9')) || (('a' <= c) && (c <= 'z')) || (('A' <= c) && (c
            <= 'Z')) || c == '-' || c == '_';
        if !ok {
            return false;
        }
        i = i + 1;
    }
    if line.get_char(0) == '-' || line.get_char(n - 1) == '-' {
        return false;
    }
    if contains_str_ci(line, "error") {
        return false;
    }
    if contains_str_ci(line, "commande") {
        return false;
    }
    if contains_str_ci(line, "inconnue") {
        return false;
    }
    true
}

/// `x` occurs among the views of `v`.
pub open spec fn contains_view(v: Seq<String>, x: Seq<char>) -> bool {
    exists|i: int| 0 <= i < v.len() && v[i]@ == x
}

/// Membership test by string value.
pub fn vec_contains_str(v: &Vec<String>, x: &str) -> (b: bool)
    ensures
        b == contains_view(v@, x@),
{
    let mut i: usize = 0;
    while i < v.len()
        invariant
            0 <= i <= v@.len(),
            forall|j: int| 0 <= j < i ==> v@[j]@ != x@,
        decreases v@.len() - i,
    {
        if str_eq(v[i].as_str(), x) {
            return true;
        }
        i = i + 1;
    }
    false
}

/// No two entries of `v` hold the same string.
pub open spec fn no_duplicate_views(v: Seq<String>) -> bool {
    forall|i: int, j: int| 0 <= i < j < v.len() ==> v[i]@ != v[j]@
}

/// Adds to `acc` every raw line that, after trimming, is a valid container
/// name and is not already present.  This is the per-strategy filtering step
/// of the reconciler; running it once per listing strategy merges and
/// deduplicates the strategies' outputs.
pub fn merge_accepted_lines(acc: &mut Vec<String>, raw_lines: &Vec<String>)
    requires
        no_duplicate_views(old(acc)@),
        forall|i: int| 0 <= i < old(acc)@.len() ==> valid_container_name(#[trigger] old(
            acc,
        )@[i]@),
    ensures
        no_duplicate_views(final(acc)@),
        forall|i: int|
            0 <= i < final(acc)@.len() ==> valid_container_name(#[trigger] final(acc)@[i]@),
        // nothing is lost
        forall|i: int|
            0 <= i < old(acc)@.len() ==> contains_view(final(acc)@, #[trigger] old(acc)@[i]@),
        // every accepted line is in
        forall|j: int|
            0 <= j < raw_lines@.len() && valid_container_name(
                trim_spec(#[trigger] raw_lines@[j]@),
            ) ==> contains_view(final(acc)@, trim_spec(raw_lines@[j]@)),
        // nothing else comes in
        forall|i: int|
            0 <= i < final(acc)@.len() ==> contains_view(old(acc)@, #[trigger] final(acc)@[i]@)
                || (exists|j: int|
                0 <= j < raw_lines@.len() && final(acc)@[i]@ == trim_spec(
                    #[trigger] raw_lines@[j]@,
                )),
{
    let mut j: usize = 0;
    while j < raw_lines.len()
        invariant
            0 <= j <= raw_lines@.len(),
            no_duplicate_views(acc@),
            forall|i: int| 0 <= i < acc@.len() ==> valid_container_name(#[trigger] acc@[i]@),
            forall|i: int|
                0 <= i < old(acc)@.len() ==> contains_view(acc@, #[trigger] old(acc)@[i]@),
            forall|k: int|
                0 <= k < j && valid_container_name(trim_spec(#[trigger] raw_lines@[k]@))
                    ==> contains_view(acc@, trim_spec(raw_lines@[k]@)),
            forall|i: int|
                0 <= i < acc@.len() ==> contains_view(old(acc)@, #[trigger] acc@[i]@) || (exists|
                    k: int,
                |
                    0 <= k < raw_lines@.len() && acc@[i]@ == trim_spec(
                        #[trigger] raw_lines@[k]@,
                    )),
        decreases raw_lines@.len() - j,
    {
        let line = trim(raw_lines[j].as_str());
        if is_valid_container_name(line) {
            if !vec_contains_str(acc, line) {
                let ghost prev = acc@;
                acc.push(String::from_str(line));
                proof {
                    assert(acc@.len() == prev.len() + 1);
                    assert(forall|i: int| 0 <= i < prev.len() ==> acc@[i] == prev[i]);
                    assert(acc@[prev.len() as int]@ == line@);
                    assert forall|i: int| 0 <= i < old(acc)@.len() implies contains_view(
                        acc@,
                        #[trigger] old(acc)@[i]@,
                    ) by {
                        let w = choose|w: int| 0 <= w < prev.len() && prev[w]@ == old(acc)@[i]@;
                        assert(acc@[w]@ == old(acc)@[i]@);
                    }
                    assert forall|k: int|
                        0 <= k < j + 1 && valid_container_name(
                            trim_spec(#[trigger] raw_lines@[k]@),
                        ) implies contains_view(acc@, trim_spec(raw_lines@[k]@)) by {
                        if k < j {
                            let w = choose|w: int|
                                0 <= w < prev.len() && prev[w]@ == trim_spec(raw_lines@[k]@);
                            assert(acc@[w]@ == trim_spec(raw_lines@[k]@));
                        } else {
                            assert(acc@[prev.len() as int]@ == trim_spec(raw_lines@[k]@));
                        }
                    }
                    assert forall|i: int|
                        0 <= i < acc@.len() implies contains_view(
                        old(acc)@,
                        #[trigger] acc@[i]@,
                    ) || (exists|k: int|
                        0 <= k < raw_lines@.len() && acc@[i]@ == trim_spec(
                            #[trigger] raw_lines@[k]@,
                        )) by {
                        if i == prev.len() {
                            assert(acc@[i]@ == trim_spec(raw_lines@[j as int]@));
                        }
                    }
                }
            } else {
                proof {
                    assert(contains_view(acc@, trim_spec(raw_lines@[j as int]@)));
                }
            }
        }
        j = j + 1;
    }
}

/// Canonical container status, as the runtime's tools report it.
#[derive(Debug, Clone, Copy, PartialEq, Eq, Structural)]
pub enum ContainerStatus {
    Running,
    Stopped,
    Frozen,
    Unknown,
}

impl ContainerStatus {
    /// The canonical upper-case token for this status.
    pub fn as_str(&self) -> (r: &'static str)
        ensures
            r@ == match self {
                ContainerStatus::Running => "RUNNING"@,
                ContainerStatus::Stopped => "STOPPED"@,
                ContainerStatus::Frozen => "FROZEN"@,
                ContainerStatus::Unknown => "UNKNOWN"@,
            },
    {
        match self {
            ContainerStatus::Running => "RUNNING",
            ContainerStatus::Stopped => "STOPPED",
            ContainerStatus::Frozen => "FROZEN",
            ContainerStatus::Unknown => "UNKNOWN",
        }
    }
}

/// Classifies a status fragment as reported by a structured listing: the
/// first of RUNNING, STOPPED, FROZEN found in it (case-insensitively), else
/// UNKNOWN.
pub fn classify_status(s: &str) -> (r: ContainerStatus)
    ensures
        r is Running <==> contains_seq(lower_seq(s@), lower_seq("RUNNING"@)),
        !(r is Running) ==> (r is Stopped <==> contains_seq(
            lower_seq(s@),
            lower_seq("STOPPED"@),
        )),
        !(r is Running) && !(r is Stopped) ==> (r is Frozen <==> contains_seq(
            lower_seq(s@),
            lower_seq("FROZEN"@),
        )),
{
    if contains_str_ci(s, "RUNNING") {
        ContainerStatus::Running
    } else if contains_str_ci(s, "STOPPED") {
        ContainerStatus::Stopped
    } else if contains_str_ci(s, "FROZEN") {
        ContainerStatus::Frozen
    } else {
        ContainerStatus::Unknown
    }
}

/// Extracts a usable status token from a status-query's standard output:
/// the trimmed text, unless it is empty, the placeholder `UNKNOWN`, or looks
/// like error prose.
pub fn parse_status_token(stdout: &str) -> (r: Option<String>)
    ensures
        ({
            let t = trim_spec(stdout@);
            if t.len() > 0 && t != "UNKNOWN"@ && !contains_seq(
                lower_seq(t),
                lower_seq("error"@),
            ) {
                r matches Some(v) && v@ == t
            } else {
                r is None
            }
        }),
{
    let t = trim(stdout);
    if t.is_empty() {
        return None;
    }
    if str_eq(t, "UNKNOWN") {
        return None;
    }
    if contains_str_ci(t, "error") {
        return None;
    }
    Some(String::from_str(t))
}


/// Parses one line of the structured enumerator's `name,status` output: the
/// validated name and, where the line has a second field, its trimmed
/// status.  Header lines (`NAME`) and lines whose first field fails the
/// validator give nothing.
pub fn parse_csv_listing_line(line: &str) -> (r: Option<(String, Option<String>)>)
    ensures
        ({
            let fields = crate::text::split_spec(line@, ',');
            let name = trim_spec(fields[0]);
            if valid_container_name(name) && name != "NAME"@ {
                r matches Some(p) && p.0@ == name && (if fields.len() >= 2 {
                    p.1 matches Some(st) && st@ == trim_spec(fields[1])
                } else {
                    p.1 is None
                })
            } else {
                r is None
            }
        }),
{
    let fields = crate::text::split_char(line, ',');
    proof {
        assert(crate::text::views_of(fields@).len() >= 1) by {
            assert(crate::text::split_spec(line@, ',').len() >= 1) by {
                lemma_split_nonempty(line@, ',');
            }
        }
    }
    let name = trim(fields[0].as_str());
    if !is_valid_container_name(name) {
        return None;
    }
    if str_eq(name, "NAME") {
        return None;
    }
    let status = if fields.len() >= 2 {
        Some(String::from_str(trim(fields[1].as_str())))
    } else {
        None
    };
    Some((String::from_str(name), status))
}

proof fn lemma_split_nonempty(s: Seq<char>, sep: char)
    ensures
        crate::text::split_spec(s, sep).len() >= 1,
    decreases s.len(),
{
    let i = crate::text::first_sep(s, sep);
    if i < s.len() {
        lemma_split_nonempty(s.subrange(i as int + 1, s.len() as int), sep);
    }
}


/// Lexicographic order on character sequences, by scalar value: the order in
/// which the original tool sorts container names for display.
pub open spec fn lex_lt(a: Seq<char>, b: Seq<char>) -> bool
    decreases a.len(),
{
    if b.len() == 0 {
        false
    } else if a.len() == 0 {
        true
    } else if a[0] != b[0] {
        (a[0] as u32) < (b[0] as u32)
    } else {
        lex_lt(a.drop_first(), b.drop_first())
    }
}

/// `a` comes no later than `b` in the lexicographic order.
pub open spec fn lex_le(a: Seq<char>, b: Seq<char>) -> bool {
    !lex_lt(b, a)
}

proof fn lemma_lex_asymmetric(a: Seq<char>, b: Seq<char>)
    requires
        lex_lt(a, b),
    ensures
        !lex_lt(b, a),
    decreases a.len(),
{
    if b.len() == 0 {
    } else if a.len() == 0 {
    } else if a[0] != b[0] {
    } else {
        lemma_lex_asymmetric(a.drop_first(), b.drop_first());
    }
}

/// Lexicographic comparison of two strings.
pub fn str_lt(a: &str, b: &str) -> (r: bool)
    ensures
        r == lex_lt(a@, b@),
{
    let na = a.unicode_len();
    let nb = b.unicode_len();
    let mut i: usize = 0;
    proof {
        assert(a@.skip(0) =~= a@);
        assert(b@.skip(0) =~= b@);
    }
    loop
        invariant
            0 <= i <= na,
            0 <= i <= nb,
            na == a@.len(),
            nb == b@.len(),
            lex_lt(a@, b@) == lex_lt(a@.skip(i as int), b@.skip(i as int)),
        decreases na - i,
    {
        if i >= nb {
            proof {
                assert(b@.skip(i as int).len() == 0);
            }
            return false;
        }
        if i >= na {
            proof {
                assert(a@.skip(i as int).len() == 0);
                assert(b@.skip(i as int).len() > 0);
            }
            return true;
        }
        let ca = a.get_char(i);
        let cb = b.get_char(i);
        proof {
            assert(a@.skip(i as int)[0] == a@[i as int]);
            assert(b@.skip(i as int)[0] == b@[i as int]);
        }
        if ca != cb {
            return (ca as u32) < (cb as u32);
        }
        proof {
            assert(a@.skip(i as int).drop_first() =~= a@.skip(i + 1));
            assert(b@.skip(i as int).drop_first() =~= b@.skip(i + 1));
        }
        i = i + 1;
    }
}

/// The entries of `v` come in lexicographic order of their strings.
pub open spec fn names_sorted(v: Seq<String>) -> bool {
    forall|i: int| 0 <= i < v.len() - 1 ==> lex_le(#[trigger] v[i]@, v[i + 1]@)
}

/// Inserts `x` into a sorted vector, keeping it sorted; nothing else changes.
pub fn insert_sorted(v: &mut Vec<String>, x: String)
    requires
        names_sorted(old(v)@),
    ensures
        names_sorted(final(v)@),
        final(v)@.len() == old(v)@.len() + 1,
        contains_view(final(v)@, x@),
        forall|i: int|
            0 <= i < old(v)@.len() ==> contains_view(final(v)@, #[trigger] old(v)@[i]@),
        forall|i: int|
            0 <= i < final(v)@.len() ==> final(v)@[i]@ == x@ || contains_view(
                old(v)@,
                #[trigger] final(v)@[i]@,
            ),
{
    let mut p: usize = 0;
    while p < v.len() && !str_lt(x.as_str(), v[p].as_str())
        invariant
            0 <= p <= v@.len(),
            v@ == old(v)@,
            forall|j: int| 0 <= j < p ==> !lex_lt(x@, #[trigger] v@[j]@),
        decreases v@.len() - p,
    {
        p = p + 1;
    }
    let ghost prev = v@;
    let ghost pos = p as int;
    let ghost before_p = p < v.len();
    proof {
        if p < prev.len() {
            assert(lex_lt(x@, prev[pos]@));
            lemma_lex_asymmetric(x@, prev[pos]@);
        }
    }
    v.insert(p, x);
    proof {
        prev.insert_ensures(pos, x);
        let cur = v@;
        assert(cur[pos]@ == x@);
        assert forall|i: int| 0 <= i < cur.len() - 1 implies lex_le(
            #[trigger] cur[i]@,
            cur[i + 1]@,
        ) by {
            if i + 1 < pos {
                assert(cur[i] == prev[i]);
                assert(cur[i + 1] == prev[i + 1]);
            } else if i + 1 == pos {
                assert(cur[i] == prev[i]);
                assert(!lex_lt(x@, prev[i]@));
            } else if i == pos {
                assert(cur[i + 1] == prev[i]);
                assert(!lex_lt(prev[i]@, x@));
            } else {
                assert(cur[i] == prev[i - 1]);
                assert(cur[i + 1] == prev[i]);
            }
        }
        assert(contains_view(cur, x@));
        assert forall|i: int| 0 <= i < prev.len() implies contains_view(
            cur,
            #[trigger] prev[i]@,
        ) by {
            if i < pos {
                assert(cur[i]@ == prev[i]@);
            } else {
                assert(cur[i + 1]@ == prev[i]@);
            }
        }
        assert forall|i: int| 0 <= i < cur.len() implies cur[i]@ == x@ || contains_view(
            prev,
            #[trigger] cur[i]@,
        ) by {
            if i < pos {
                assert(cur[i]@ == prev[i]@);
            } else if i > pos {
                assert(cur[i]@ == prev[i - 1]@);
            }
        }
    }
}

/// The names in lexicographic order: the reconciled listing is presented
/// sorted by name.
pub fn sort_names(names: &Vec<String>) -> (r: Vec<String>)
    ensures
        names_sorted(r@),
        r@.len() == names@.len(),
        forall|i: int| 0 <= i < names@.len() ==> contains_view(r@, #[trigger] names@[i]@),
        forall|i: int| 0 <= i < r@.len() ==> contains_view(names@, #[trigger] r@[i]@),
{
    let mut r: Vec<String> = Vec::new();
    let mut j: usize = 0;
    while j < names.len()
        invariant
            0 <= j <= names@.len(),
            names_sorted(r@),
            r@.len() == j,
            forall|i: int| 0 <= i < j ==> contains_view(r@, #[trigger] names@[i]@),
            forall|i: int| 0 <= i < r@.len() ==> contains_view(names@, #[trigger] r@[i]@),
        decreases names@.len() - j,
    {
        let ghost before = r@;
        insert_sorted(&mut r, names[j].clone());
        proof {
            assert forall|i: int| 0 <= i < j + 1 implies contains_view(
                r@,
                #[trigger] names@[i]@,
            ) by {
                if i < j {
                    let w = choose|w: int| 0 <= w < before.len() && before[w]@ == names@[i]@;
                    assert(contains_view(r@, before[w]@));
                }
            }
            assert forall|i: int| 0 <= i < r@.len() implies contains_view(
                names@,
                #[trigger] r@[i]@,
            ) by {
                if r@[i]@ != names@[j as int]@ {
                    let w = choose|w: int| 0 <= w < before.len() && before[w]@ == r@[i]@;
                }
            }
        }
        j = j + 1;
    }
    r
}


/// Whether the entries come in lexicographic order, as executed.
pub fn names_sorted_check(v: &Vec<String>) -> (b: bool)
    ensures
        b == names_sorted(v@),
{
    if v.len() == 0 {
        return true;
    }
    let mut i: usize = 0;
    while i < v.len() - 1
        invariant
            v@.len() > 0,
            0 <= i <= v@.len() - 1,
            forall|j: int| 0 <= j < i ==> lex_le(#[trigger] v@[j]@, v@[j + 1]@),
        decreases v@.len() - i,
    {
        if str_lt(v[i + 1].as_str(), v[i].as_str()) {
            proof {
                assert(!lex_le(v@[i as int]@, v@[i + 1]@));
            }
            return false;
        }
        i = i + 1;
    }
    true
}

} // verus!
