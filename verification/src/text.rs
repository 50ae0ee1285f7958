//! Character-level operations on header values and paths.

use vstd::prelude::*;
use vstd::string::StrSliceExecFns;

verus! {

/// The characters that carry the Unicode property `White_Space`.
pub open spec fn is_white_space(c: char) -> bool {
    let u = c as u32;
    ||| 0x09 <= u <= 0x0D
    ||| u == 0x20
    ||| u == 0x85
    ||| u == 0xA0
    ||| u == 0x1680
    ||| 0x2000 <= u <= 0x200A
    ||| u == 0x2028
    ||| u == 0x2029
    ||| u == 0x202F
    ||| u == 0x205F
    ||| u == 0x3000
}

/// A sequence without its leading white space.
pub open spec fn trim_start(s: Seq<char>) -> Seq<char>
    decreases s.len(),
{
    if s.len() > 0 && is_white_space(s.first()) {
        trim_start(s.drop_first())
    } else {
        s
    }
}

/// A sequence without its trailing white space.
pub open spec fn trim_end(s: Seq<char>) -> Seq<char>
    decreases s.len(),
{
    if s.len() > 0 && is_white_space(s.last()) {
        trim_end(s.drop_last())
    } else {
        s
    }
}

/// A sequence without white space at either end.
pub open spec fn trimmed(s: Seq<char>) -> Seq<char> {
    trim_end(trim_start(s))
}

/// A sequence from its position `from` on; empty where `from` lies beyond
/// its end.
pub open spec fn tail(s: Seq<char>, from: int) -> Seq<char> {
    if 0 <= from <= s.len() {
        s.skip(from)
    } else {
        Seq::empty()
    }
}

/// An ASCII capital as its small letter; any other character unchanged.
pub open spec fn ascii_lower(c: char) -> char {
    if 'A' <= c <= 'Z' {
        ((c as u8) + 32) as char
    } else {
        c
    }
}

/// A text with every ASCII capital as its small letter.
pub open spec fn ascii_lowered(s: Seq<char>) -> Seq<char> {
    Seq::new(s.len(), |i: int| ascii_lower(s[i]))
}

/// The characters of ASCII.
pub open spec fn is_ascii(c: char) -> bool {
    (c as u32) < 128
}

/// Holds when `s` begins with `prefix`, letters of ASCII compared without
/// regard to case.
pub open spec fn starts_with_ignoring_case(s: Seq<char>, prefix: Seq<char>) -> bool {
    &&& prefix.len() <= s.len()
    &&& forall|i: int| 0 <= i < prefix.len() ==> ascii_lower(s[i]) == ascii_lower(prefix[i])
}

/// Trimming leaves a text as it is that neither begins nor ends with white
/// space.
pub proof fn bare_text_is_its_own_trimming(s: Seq<char>)
    requires
        s.len() > 0 ==> !is_white_space(s.first()) && !is_white_space(s.last()),
    ensures
        trimmed(s) == s,
{
}

/// Trimming removes a white space in front of a text.
pub proof fn leading_white_space_is_trimmed(c: char, s: Seq<char>)
    requires
        is_white_space(c),
    ensures
        trimmed(seq![c] + s) == trimmed(s),
{
    assert((seq![c] + s).drop_first() =~= s);
}

pub fn white_space(c: char) -> (r: bool)
    ensures
        r == is_white_space(c),
{
    let u: u32 = c as u32;
    (0x09 <= u && u <= 0x0D) || u == 0x20 || u == 0x85 || u == 0xA0 || u == 0x1680 || (0x2000 <= u
        && u <= 0x200A) || u == 0x2028 || u == 0x2029 || u == 0x202F || u == 0x205F || u == 0x3000
}

pub fn to_ascii_lower(c: char) -> (r: char)
    ensures
        r == ascii_lower(c),
{
    if 'A' <= c && c <= 'Z' {
        ((c as u8) + 32) as char
    } else {
        c
    }
}

/// The characters of a string, in order.
pub fn chars_of(s: &str) -> (v: Vec<char>)
    ensures
        v@ == s@,
{
    let mut v: Vec<char> = Vec::new();
    for c in it: s.chars()
        invariant
            it.seq() == s@,
            v@ == s@.take(it.index()),
    {
        v.push(c);
    }
    v
}

/// Tells whether `s` begins with `prefix`, character for character.
pub fn starts_with(s: &Vec<char>, prefix: &Vec<char>) -> (r: bool)
    ensures
        r == prefix@.is_prefix_of(s@),
{
    if prefix.len() > s.len() {
        return false;
    }
    let mut i: usize = 0;
    while i < prefix.len()
        invariant
            i <= prefix.len() <= s.len(),
            forall|j: int| 0 <= j < i ==> s@[j] == prefix@[j],
        decreases prefix.len() - i,
    {
        if s[i] != prefix[i] {
            return false;
        }
        i += 1;
    }
    assert(prefix@ =~= s@.subrange(0, prefix@.len() as int));
    true
}

/// Tells whether `s` begins with `prefix` when the case of ASCII letters is
/// left out of account.
pub fn starts_with_ignore_case(s: &Vec<char>, prefix: &Vec<char>) -> (r: bool)
    ensures
        r == starts_with_ignoring_case(s@, prefix@),
{
    if prefix.len() > s.len() {
        return false;
    }
    let mut i: usize = 0;
    while i < prefix.len()
        invariant
            i <= prefix.len() <= s.len(),
            forall|j: int| 0 <= j < i ==> ascii_lower(s@[j]) == ascii_lower(prefix@[j]),
        decreases prefix.len() - i,
    {
        if to_ascii_lower(s[i]) != to_ascii_lower(prefix[i]) {
            return false;
        }
        i += 1;
    }
    true
}

/// The part of `s` from its character `from` on, without white space at
/// either end. Positions count characters; one beyond the end gives the empty
/// text.
pub fn trim_from(s: &str, from: usize) -> (r: String)
    ensures
        r@ == trimmed(tail(s@, from as int)),
{
    let chars = chars_of(s);
    let n = chars.len();
    if from > n {
        return String::new();
    }
    let mut start: usize = from;
    while start < n && white_space(chars[start])
        invariant
            from <= start <= n,
            n == s@.len(),
            chars@ == s@,
            trim_start(s@.skip(from as int)) == trim_start(s@.skip(start as int)),
        decreases n - start,
    {
        assert(s@.skip(start as int).drop_first() =~= s@.skip(start + 1));
        start += 1;
    }
    let mut end: usize = n;
    assert(s@.skip(start as int) =~= s@.subrange(start as int, end as int));
    while end > start && white_space(chars[end - 1])
        invariant
            start <= end <= n,
            n == s@.len(),
            chars@ == s@,
            trim_end(s@.skip(start as int)) == trim_end(s@.subrange(start as int, end as int)),
        decreases end - start,
    {
        assert(s@.subrange(start as int, end as int).drop_last() =~= s@.subrange(
            start as int,
            end - 1,
        ));
        end -= 1;
    }
    s.substring_char(start, end).to_string()
}

} // verus!
