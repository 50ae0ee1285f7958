//! The shape of an e-mail address.
//!
//! An address is a local part, `@`, a host, `.` and a suffix, and nothing
//! before, between or after them:
//!
//! * the local part is made of letters, digits, `_`, `+` and `.`, and
//!   neither begins nor ends with `.`;
//! * the host is made of runs of letters and digits, with a single `-` or
//!   `.` between one run and the next;
//! * the suffix is two to six letters.
//!
//! The letters are those of ASCII, capital or small. Whether a letter is
//! capital or small makes no difference to the rule, and no character outside
//! ASCII is part of an address.

use vstd::prelude::*;
use crate::text::{ascii_lower, ascii_lowered, is_ascii};

verus! {

pub open spec fn is_letter(c: char) -> bool {
    'a' <= c <= 'z' || 'A' <= c <= 'Z'
}

pub open spec fn is_alnum(c: char) -> bool {
    is_letter(c) || '0' <= c <= '9'
}

pub open spec fn is_local_char(c: char) -> bool {
    is_alnum(c) || c == '_' || c == '+'
}

pub open spec fn is_separator(c: char) -> bool {
    c == '-' || c == '.'
}

pub open spec fn is_local_part(s: Seq<char>) -> bool {
    &&& s.len() > 0
    &&& is_local_char(s.first())
    &&& is_local_char(s.last())
    &&& forall|i: int| 0 <= i < s.len() ==> is_local_char(#[trigger] s[i]) || s[i] == '.'
}

pub open spec fn is_host(s: Seq<char>) -> bool {
    &&& s.len() > 0
    &&& is_alnum(s.first())
    &&& is_alnum(s.last())
    &&& forall|i: int| 0 <= i < s.len() ==> is_alnum(#[trigger] s[i]) || is_separator(s[i])
    &&& forall|i: int|
        0 <= i < s.len() - 1 ==> !(is_separator(#[trigger] s[i]) && is_separator(s[i + 1]))
}

pub open spec fn is_suffix(s: Seq<char>) -> bool {
    &&& 2 <= s.len() <= 6
    &&& forall|i: int| 0 <= i < s.len() ==> is_letter(#[trigger] s[i])
}

/// Holds when `s` is an address whose `@` stands at `at` and whose last `.`,
/// the one before the suffix, at `dot`.
pub open spec fn address_at(s: Seq<char>, at: int, dot: int) -> bool {
    &&& 0 < at < dot < s.len()
    &&& is_local_part(s.subrange(0, at))
    &&& s[at] == '@'
    &&& is_host(s.subrange(at + 1, dot))
    &&& s[dot] == '.'
    &&& is_suffix(s.subrange(dot + 1, s.len() as int))
}

/// Holds when `s`, the whole of it, is an address.
pub open spec fn is_email(s: Seq<char>) -> bool {
    exists|at: int, dot: int| address_at(s, at, dot)
}

/// The rule tells no capital from its small letter.
proof fn classes_ignore_case(c: char)
    ensures
        is_letter(ascii_lower(c)) == is_letter(c),
        is_alnum(ascii_lower(c)) == is_alnum(c),
        is_local_char(ascii_lower(c)) == is_local_char(c),
        is_separator(ascii_lower(c)) == is_separator(c),
        (ascii_lower(c) == '@') == (c == '@'),
        (ascii_lower(c) == '.') == (c == '.'),
{
}

/// A text in small letters has the parts of an address where the text itself
/// has them.
proof fn parts_ignore_case(s: Seq<char>)
    ensures
        is_local_part(ascii_lowered(s)) == is_local_part(s),
        is_host(ascii_lowered(s)) == is_host(s),
        is_suffix(ascii_lowered(s)) == is_suffix(s),
{
    let t = ascii_lowered(s);
    assert forall|i: int| 0 <= i < s.len() implies {
        &&& is_letter(#[trigger] t[i]) == is_letter(s[i])
        &&& is_alnum(t[i]) == is_alnum(s[i])
        &&& is_local_char(t[i]) == is_local_char(s[i])
        &&& is_separator(t[i]) == is_separator(s[i])
        &&& (t[i] == '.') == (s[i] == '.')
    } by {
        classes_ignore_case(s[i]);
    }
    if s.len() > 0 {
        assert(t.first() == t[0]);
        assert(t.last() == t[s.len() - 1]);
    }
    if is_local_part(s) {
        assert forall|i: int| 0 <= i < t.len() implies is_local_char(#[trigger] t[i]) || t[i]
            == '.' by {
            assert(is_local_char(s[i]) || s[i] == '.');
        }
    }
    if is_local_part(t) {
        assert forall|i: int| 0 <= i < s.len() implies is_local_char(#[trigger] s[i]) || s[i]
            == '.' by {
            assert(is_local_char(t[i]) || t[i] == '.');
        }
    }
    if is_host(s) {
        assert forall|i: int| 0 <= i < t.len() implies is_alnum(#[trigger] t[i]) || is_separator(
            t[i],
        ) by {
            assert(is_alnum(s[i]) || is_separator(s[i]));
        }
        assert forall|i: int| 0 <= i < t.len() - 1 implies !(is_separator(#[trigger] t[i])
            && is_separator(t[i + 1])) by {
            assert(!(is_separator(s[i]) && is_separator(s[i + 1])));
        }
    }
    if is_host(t) {
        assert forall|i: int| 0 <= i < s.len() implies is_alnum(#[trigger] s[i]) || is_separator(
            s[i],
        ) by {
            assert(is_alnum(t[i]) || is_separator(t[i]));
        }
        assert forall|i: int| 0 <= i < s.len() - 1 implies !(is_separator(#[trigger] s[i])
            && is_separator(s[i + 1])) by {
            assert(!(is_separator(t[i]) && is_separator(t[i + 1])));
        }
    }
    if is_suffix(s) {
        assert forall|i: int| 0 <= i < t.len() implies is_letter(#[trigger] t[i]) by {
            assert(is_letter(s[i]));
        }
    }
    if is_suffix(t) {
        assert forall|i: int| 0 <= i < s.len() implies is_letter(#[trigger] s[i]) by {
            assert(is_letter(t[i]));
        }
    }
}

/// A text in small letters is an address with its `@` and its last `.` at
/// given places exactly when the text itself is.
proof fn address_ignores_case(s: Seq<char>, at: int, dot: int)
    ensures
        address_at(ascii_lowered(s), at, dot) == address_at(s, at, dot),
{
    let t = ascii_lowered(s);
    if 0 < at < dot < s.len() {
        assert(t.subrange(0, at) =~= ascii_lowered(s.subrange(0, at)));
        assert(t.subrange(at + 1, dot) =~= ascii_lowered(s.subrange(at + 1, dot)));
        assert(t.subrange(dot + 1, t.len() as int) =~= ascii_lowered(
            s.subrange(dot + 1, s.len() as int),
        ));
        parts_ignore_case(s.subrange(0, at));
        parts_ignore_case(s.subrange(at + 1, dot));
        parts_ignore_case(s.subrange(dot + 1, s.len() as int));
        classes_ignore_case(s[at]);
        classes_ignore_case(s[dot]);
    }
}

/// Whether a text is an address does not depend on the case of its letters:
/// the text and the same text in small letters are accepted alike.
pub proof fn letter_case_makes_no_difference(s: Seq<char>)
    ensures
        is_email(s) == is_email(ascii_lowered(s)),
{
    let t = ascii_lowered(s);
    if is_email(s) {
        let (at, dot) = choose|at: int, dot: int| address_at(s, at, dot);
        address_ignores_case(s, at, dot);
        assert(address_at(t, at, dot));
    }
    if is_email(t) {
        let (at, dot) = choose|at: int, dot: int| address_at(t, at, dot);
        address_ignores_case(s, at, dot);
        assert(address_at(s, at, dot));
    }
}

/// Every character of an address is a character of ASCII.
pub proof fn accepted_text_is_ascii(s: Seq<char>)
    requires
        is_email(s),
    ensures
        forall|i: int| 0 <= i < s.len() ==> is_ascii(#[trigger] s[i]),
{
    let (at, dot) = choose|at: int, dot: int| address_at(s, at, dot);
    let local = s.subrange(0, at);
    let host = s.subrange(at + 1, dot);
    let suffix = s.subrange(dot + 1, s.len() as int);
    assert forall|i: int| 0 <= i < s.len() implies is_ascii(#[trigger] s[i]) by {
        if i < at {
            assert(local[i] == s[i]);
        } else if at < i < dot {
            assert(host[i - at - 1] == s[i]);
        } else if dot < i {
            assert(suffix[i - dot - 1] == s[i]);
        }
    }
}

/// In any reading of `s` as an address, the `@` is the first character that
/// cannot belong to a local part.
proof fn at_sign_is_where_the_local_part_stops(s: Seq<char>, stop: int, at: int, dot: int)
    requires
        address_at(s, at, dot),
        0 <= stop <= s.len(),
        forall|j: int| 0 <= j < stop ==> is_local_char(#[trigger] s[j]) || s[j] == '.',
        stop < s.len() ==> !(is_local_char(s[stop]) || s[stop] == '.'),
    ensures
        at == stop,
{
    let local = s.subrange(0, at);
    if at < stop {
        assert(is_local_char(s[at]) || s[at] == '.');
    } else if stop < at {
        assert(local[stop] == s[stop]);
    }
}

/// In any reading of `s` as an address, the suffix is the longest run of
/// letters at the end of what follows the `@`.
proof fn dot_is_where_the_suffix_starts(s: Seq<char>, start: int, at: int, dot: int)
    requires
        address_at(s, at, dot),
        at + 1 <= start <= s.len(),
        forall|j: int| start <= j < s.len() ==> is_letter(#[trigger] s[j]),
        start == at + 1 || !is_letter(s[start - 1]),
    ensures
        dot + 1 == start,
{
    let suffix = s.subrange(dot + 1, s.len() as int);
    if start <= dot {
        assert(is_letter(s[dot]));
    } else if dot + 1 < start {
        assert(s.subrange(at + 1, dot).len() > 0);
        assert(suffix[start - 1 - (dot + 1)] == s[start - 1]);
    }
}

fn letter(c: char) -> (r: bool)
    ensures
        r == is_letter(c),
{
    ('a' <= c && c <= 'z') || ('A' <= c && c <= 'Z')
}

fn alnum(c: char) -> (r: bool)
    ensures
        r == is_alnum(c),
{
    letter(c) || ('0' <= c && c <= '9')
}

fn local_char(c: char) -> (r: bool)
    ensures
        r == is_local_char(c),
{
    alnum(c) || c == '_' || c == '+'
}

/// Tells whether the characters of `s` from `from` up to `to` are a host.
fn host_between(s: &Vec<char>, from: usize, to: usize) -> (r: bool)
    requires
        from < to <= s.len(),
    ensures
        r == is_host(s@.subrange(from as int, to as int)),
{
    let ghost host = s@.subrange(from as int, to as int);
    if !alnum(s[from]) {
        assert(host.first() == s@[from as int]);
        return false;
    }
    if !alnum(s[to - 1]) {
        assert(host.last() == s@[to - 1]);
        return false;
    }
    let mut k: usize = from + 1;
    while k < to
        invariant
            from < k <= to <= s.len(),
            host == s@.subrange(from as int, to as int),
            is_alnum(s@[from as int]),
            is_alnum(s@[to - 1]),
            forall|j: int|
                from < j < k ==> is_alnum(#[trigger] s@[j]) || (is_separator(s@[j]) && is_alnum(
                    s@[j - 1],
                )),
        decreases to - k,
    {
        let c = s[k];
        if !alnum(c) && !((c == '-' || c == '.') && alnum(s[k - 1])) {
            proof {
                let i = k - from;
                assert(host[i] == s@[k as int]);
                assert(host[i - 1] == s@[k - 1]);
                if is_host(host) {
                    assert(is_alnum(host[i]) || is_separator(host[i]));
                    assert(is_alnum(host[i - 1]) || is_separator(host[i - 1]));
                    assert(!(is_separator(host[i - 1]) && is_separator(host[i - 1 + 1])));
                }
            }
            return false;
        }
        k += 1;
    }
    proof {
        assert(host.first() == s@[from as int]);
        assert(host.last() == s@[to - 1]);
        assert forall|i: int| 0 <= i < host.len() implies is_alnum(#[trigger] host[i])
            || is_separator(host[i]) by {
            assert(host[i] == s@[from + i]);
        }
        assert forall|i: int| 0 <= i < host.len() - 1 implies !(is_separator(#[trigger] host[i])
            && is_separator(host[i + 1])) by {
            assert(host[i] == s@[from + i]);
            assert(host[i + 1] == s@[from + i + 1]);
        }
    }
    true
}

/// Tells whether `s` is an address.
pub fn matches_email(s: &Vec<char>) -> (r: bool)
    ensures
        r == is_email(s@),
{
    let n = s.len();
    if n == 0 || !local_char(s[0]) {
        assert forall|a: int, d: int| !address_at(s@, a, d) by {
            if address_at(s@, a, d) {
                assert(s@.subrange(0, a).first() == s@[0]);
            }
        }
        return false;
    }
    let mut at: usize = 1;
    while at < n && (local_char(s[at]) || s[at] == '.')
        invariant
            1 <= at <= n,
            n == s@.len(),
            forall|j: int| 0 <= j < at ==> is_local_char(#[trigger] s@[j]) || s@[j] == '.',
        decreases n - at,
    {
        at += 1;
    }
    if at >= n || s[at] != '@' || !local_char(s[at - 1]) {
        assert forall|a: int, d: int| !address_at(s@, a, d) by {
            if address_at(s@, a, d) {
                at_sign_is_where_the_local_part_stops(s@, at as int, a, d);
                assert(s@.subrange(0, a).last() == s@[a - 1]);
            }
        }
        return false;
    }
    let mut start: usize = n;
    while start > at + 1 && letter(s[start - 1])
        invariant
            at < start <= n,
            n == s@.len(),
            forall|j: int| start <= j < n ==> is_letter(#[trigger] s@[j]),
        decreases start,
    {
        start -= 1;
    }
    let accepted = start - at >= 3 && s[start - 1] == '.' && n - start >= 2 && n - start <= 6
        && host_between(s, at + 1, start - 1);
    proof {
        let local = s@.subrange(0, at as int);
        let suffix = s@.subrange(start as int, n as int);
        if accepted {
            assert(local.first() == s@[0]);
            assert(local.last() == s@[at - 1]);
            assert forall|i: int| 0 <= i < local.len() implies is_local_char(#[trigger] local[i])
                || local[i] == '.' by {
                assert(local[i] == s@[i]);
            }
            assert forall|i: int| 0 <= i < suffix.len() implies is_letter(#[trigger] suffix[i]) by {
                assert(suffix[i] == s@[start + i]);
            }
            assert(address_at(s@, at as int, start - 1));
        } else {
            assert forall|a: int, d: int| !address_at(s@, a, d) by {
                if address_at(s@, a, d) {
                    at_sign_is_where_the_local_part_stops(s@, at as int, a, d);
                    dot_is_where_the_suffix_starts(s@, start as int, a, d);
                    assert(s@.subrange(a + 1, d).len() > 0);
                }
            }
        }
    }
    accepted
}

} // verus!
