//! Character-level helpers for the strings that cross the wire.

use vstd::prelude::*;
use vstd::string::StringExecFns;

verus! {

/// `String::push` appends one character at the end of the string.
pub assume_specification[ String::push ](s: &mut String, c: char)
    ensures
        final(s)@ == old(s)@.push(c),
;

/// The characters of `s`, in order.
pub fn chars_of(s: &str) -> (out: Vec<char>)
    ensures
        out@ == s@,
{
    let mut out: Vec<char> = Vec::new();
    for c in it: s.chars()
        invariant
            out@ == it.seq().take(it.index() as int),
            it.seq() == s@,
    {
        out.push(c);
    }
    out
}

/// Tells whether two texts hold the same characters.
pub fn same_text(a: &str, b: &str) -> (same: bool)
    ensures
        same == (a@ == b@),
{
    let left = String::from_str(a);
    let right = String::from_str(b);
    left == right
}

/// `parts` written one after another with `sep` between neighbours.
pub open spec fn joined(parts: Seq<Seq<char>>, sep: Seq<char>) -> Seq<char>
    decreases parts.len(),
{
    if parts.len() == 0 {
        Seq::empty()
    } else if parts.len() == 1 {
        parts[0]
    } else {
        joined(parts.drop_last(), sep) + sep + parts.last()
    }
}

/// Joins string slices with a separator.
pub fn join_strs(parts: &Vec<&str>, sep: &str) -> (out: String)
    ensures
        out@ == joined(parts.deep_view(), sep@),
{
    let mut out = String::new();
    let mut i: usize = 0;
    while i < parts.len()
        invariant
            i <= parts.len(),
            out@ == joined(parts.deep_view().take(i as int), sep@),
        decreases parts.len() - i,
    {
        if i > 0 {
            out.append(sep);
        }
        out.append(parts[i]);
        proof {
            let before = parts.deep_view().take(i as int);
            let now = parts.deep_view().take(i + 1);
            assert(now.drop_last() =~= before);
            assert(now.last() == parts[i as int]@);
            assert(out@ =~= joined(now, sep@));
        }
        i += 1;
    }
    assert(parts.deep_view().take(i as int) =~= parts.deep_view());
    out
}

/// Joins owned strings with a separator.
pub fn join_strings(parts: &Vec<String>, sep: &str) -> (out: String)
    ensures
        out@ == joined(parts.deep_view(), sep@),
{
    let mut slices: Vec<&str> = Vec::new();
    let mut i: usize = 0;
    while i < parts.len()
        invariant
            i <= parts.len(),
            slices.deep_view() == parts.deep_view().take(i as int),
        decreases parts.len() - i,
    {
        let ghost before = slices.deep_view();
        slices.push(parts[i].as_str());
        assert(slices.deep_view() =~= before.push(parts[i as int]@));
        assert(slices.deep_view() =~= parts.deep_view().take(i + 1));
        i += 1;
    }
    assert(parts.deep_view().take(i as int) =~= parts.deep_view());
    join_strs(&slices, sep)
}

/// `pat` stands in `s` at position `at`.
pub open spec fn occurs_at(s: Seq<char>, pat: Seq<char>, at: int) -> bool {
    0 <= at && at + pat.len() <= s.len() && s.subrange(at, at + pat.len()) == pat
}

/// `pat` stands somewhere in `s`.
pub open spec fn has_infix(s: Seq<char>, pat: Seq<char>) -> bool {
    exists|at: int| occurs_at(s, pat, at)
}

fn matches_at(s: &Vec<char>, pat: &Vec<char>, at: usize) -> (b: bool)
    requires
        at + pat.len() <= s.len(),
    ensures
        b == occurs_at(s@, pat@, at as int),
{
    let mut j: usize = 0;
    while j < pat.len()
        invariant
            j <= pat.len(),
            at + pat.len() <= s.len(),
            forall|k: int| 0 <= k < j ==> s@[at + k] == pat@[k],
        decreases pat.len() - j,
    {
        if s[at + j] != pat[j] {
            proof {
                let window = s@.subrange(at as int, at + pat.len());
                assert(window[j as int] == s@[at + j]);
            }
            return false;
        }
        j += 1;
    }
    assert(s@.subrange(at as int, at + pat.len()) =~= pat@);
    true
}

/// Tells whether `s` begins with `prefix`.
pub fn starts_with(s: &str, prefix: &str) -> (b: bool)
    ensures
        b == occurs_at(s@, prefix@, 0),
{
    let text = chars_of(s);
    let pat = chars_of(prefix);
    if pat.len() > text.len() {
        return false;
    }
    matches_at(&text, &pat, 0)
}

/// Tells whether `pat` occurs in `s`.
pub fn contains(s: &str, pat: &str) -> (b: bool)
    ensures
        b == has_infix(s@, pat@),
{
    let text = chars_of(s);
    let needle = chars_of(pat);
    if needle.len() > text.len() {
        return false;
    }
    let last: usize = text.len() - needle.len();
    let mut at: usize = 0;
    loop
        invariant
            at <= last,
            last == text.len() - needle.len(),
            needle.len() <= text.len(),
            text@ == s@,
            needle@ == pat@,
            forall|k: int| 0 <= k < at ==> !occurs_at(text@, needle@, k),
        decreases last - at,
    {
        if matches_at(&text, &needle, at) {
            return true;
        }
        if at == last {
            return false;
        }
        at += 1;
    }
}

/// `text` from position `at` on, with every occurrence of `pat` replaced by
/// `with`, read from left to right without overlap.
pub open spec fn replaced_from(text: Seq<char>, pat: Seq<char>, with: Seq<char>, at: int) -> Seq<
    char,
>
    decreases text.len() - at,
{
    if at < 0 || at >= text.len() {
        Seq::empty()
    } else if pat.len() > 0 && occurs_at(text, pat, at) {
        with + replaced_from(text, pat, with, at + pat.len())
    } else {
        seq![text[at]] + replaced_from(text, pat, with, at + 1)
    }
}

/// `text` with every occurrence of `pat` replaced by `with`.
pub open spec fn replaced(text: Seq<char>, pat: Seq<char>, with: Seq<char>) -> Seq<char> {
    replaced_from(text, pat, with, 0)
}

/// Replaces every occurrence of the non-empty pattern `pat` in `s` by `with`.
pub fn replace_all(s: &str, pat: &str, with: &str) -> (out: String)
    ensures
        out@ == replaced(s@, pat@, with@),
{
    let text = chars_of(s);
    let needle = chars_of(pat);
    let mut out = String::new();
    let mut at: usize = 0;
    while at < text.len()
        invariant
            at <= text.len(),
            text@ == s@,
            needle@ == pat@,
            replaced(s@, pat@, with@) == out@ + replaced_from(text@, needle@, with@, at as int),
        decreases text.len() - at,
    {
        if needle.len() > 0 && needle.len() <= text.len() - at && matches_at(&text, &needle, at) {
            out.append(with);
            at += needle.len();
        } else {
            out.push(text[at]);
            at += 1;
        }
    }
    out
}

/// The segments of `text` that end with `mark`, in order, then what is left
/// after the last `mark` where that is not empty. `start` is where the
/// segment being read began and `at` the position being looked at.
pub open spec fn segments_from(text: Seq<char>, mark: Seq<char>, start: int, at: int) -> Seq<
    Seq<char>,
>
    decreases text.len() - at,
{
    if mark.len() == 0 || at < start || start < 0 || at + mark.len() > text.len() {
        if 0 <= start < text.len() {
            seq![text.subrange(start, text.len() as int)]
        } else {
            Seq::empty()
        }
    } else if occurs_at(text, mark, at) {
        seq![text.subrange(start, at + mark.len())] + segments_from(
            text,
            mark,
            at + mark.len(),
            at + mark.len(),
        )
    } else {
        segments_from(text, mark, start, at + 1)
    }
}

/// `text` cut after every occurrence of `mark`; each segment keeps its mark.
pub open spec fn segments(text: Seq<char>, mark: Seq<char>) -> Seq<Seq<char>> {
    segments_from(text, mark, 0, 0)
}

fn copy_range(text: &Vec<char>, from: usize, to: usize) -> (out: String)
    requires
        from <= to <= text.len(),
    ensures
        out@ == text@.subrange(from as int, to as int),
{
    let mut out = String::new();
    let mut i: usize = from;
    while i < to
        invariant
            from <= i <= to <= text.len(),
            out@ == text@.subrange(from as int, i as int),
        decreases to - i,
    {
        out.push(text[i]);
        assert(out@ =~= text@.subrange(from as int, i + 1));
        i += 1;
    }
    out
}

/// Cuts `s` after every occurrence of the non-empty `mark`.
pub fn split_after(s: &str, mark: &str) -> (out: Vec<String>)
    ensures
        out.deep_view() == segments(s@, mark@),
{
    let text = chars_of(s);
    let needle = chars_of(mark);
    let mut out: Vec<String> = Vec::new();
    let mut start: usize = 0;
    let mut at: usize = 0;
    if needle.len() > 0 {
        while needle.len() <= text.len() - at
            invariant
                start <= at <= text.len(),
                needle.len() > 0,
                text@ == s@,
                needle@ == mark@,
                segments(s@, mark@) == out.deep_view() + segments_from(
                    text@,
                    needle@,
                    start as int,
                    at as int,
                ),
            decreases text.len() - at,
        {
            if matches_at(&text, &needle, at) {
                let piece = copy_range(&text, start, at + needle.len());
                let ghost before = out.deep_view();
                out.push(piece);
                assert(out.deep_view() =~= before + seq![piece@]);
                at += needle.len();
                start = at;
            } else {
                at += 1;
            }
        }
    }
    if start < text.len() {
        let piece = copy_range(&text, start, text.len());
        let ghost before = out.deep_view();
        out.push(piece);
        assert(out.deep_view() =~= before + seq![piece@]);
    }
    out
}

/// `c` in upper case where it is one of the letters `a` to `z`.
pub open spec fn upper_char(c: char) -> char {
    if 'a' <= c <= 'z' {
        ((c as u8 - 32) as u8) as char
    } else {
        c
    }
}

/// Turns the ASCII letters of `s` into upper case.
pub fn ascii_upper(s: &str) -> (out: String)
    ensures
        out@ == s@.map_values(|c: char| upper_char(c)),
{
    let mut out = String::new();
    for c in it: s.chars()
        invariant
            it.seq() == s@,
            out@ == s@.take(it.index() as int).map_values(|c: char| upper_char(c)),
    {
        let up: char = if 'a' <= c && c <= 'z' {
            ((c as u8) - 32) as char
        } else {
            c
        };
        out.push(up);
        assert(out@ =~= s@.take(it.index() + 1).map_values(|c: char| upper_char(c)));
    }
    assert(s@.take(s@.len() as int) =~= s@);
    out
}

/// `c` in lower case where it is one of the letters `A` to `Z`.
pub open spec fn lower_char(c: char) -> char {
    if 'A' <= c <= 'Z' {
        ((c as u8 + 32) as u8) as char
    } else {
        c
    }
}

/// Turns the ASCII letters of `s` into lower case.
pub fn ascii_lower(s: &str) -> (out: String)
    ensures
        out@ == s@.map_values(|c: char| lower_char(c)),
{
    let mut out = String::new();
    for c in it: s.chars()
        invariant
            it.seq() == s@,
            out@ == s@.take(it.index() as int).map_values(|c: char| lower_char(c)),
    {
        let up: char = if 'A' <= c && c <= 'Z' {
            ((c as u8) + 32) as char
        } else {
            c
        };
        out.push(up);
        assert(out@ =~= s@.take(it.index() + 1).map_values(|c: char| lower_char(c)));
    }
    assert(s@.take(s@.len() as int) =~= s@);
    out
}

} // verus!
