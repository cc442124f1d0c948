//! Text operations of `str` (`split_once`, `trim`, `starts_with`,
//! `eq_ignore_ascii_case`), stated and carried out over the characters of a
//! string.

use vstd::prelude::*;

verus! {

/// The characters of `s`.
pub fn chars_of(s: &str) -> (chars: Vec<char>)
    ensures
        chars@ == s@,
{
    broadcast use vstd::string::group_string_axioms;

    let mut chars: Vec<char> = Vec::new();
    for c in it: s.chars()
        invariant
            chars@ == it.seq().take(it.index() as int),
            it.seq() == s@,
    {
        chars.push(c);
    }
    chars
}

/// `pattern` occurs in `text` at index `i`.
pub open spec fn occurs_at(text: Seq<char>, pattern: Seq<char>, i: int) -> bool {
    &&& 0 <= i
    &&& i + pattern.len() <= text.len()
    &&& text.subrange(i, i + pattern.len()) == pattern
}

/// `pattern` occurs in `text` at index `i` and nowhere before.
pub open spec fn first_occurs_at(text: Seq<char>, pattern: Seq<char>, i: int) -> bool {
    &&& occurs_at(text, pattern, i)
    &&& forall|j: int| 0 <= j < i ==> !occurs_at(text, pattern, j)
}

/// The parts of `text` before and after the first occurrence of `pattern`, as
/// `str::split_once` cuts them; none if `pattern` does not occur.
pub open spec fn split_once(text: Seq<char>, pattern: Seq<char>) -> Option<(Seq<char>, Seq<char>)> {
    if exists|i: int| occurs_at(text, pattern, i) {
        let i = choose|i: int| first_occurs_at(text, pattern, i);
        Some((text.subrange(0, i), text.subrange(i + pattern.len(), text.len() as int)))
    } else {
        None
    }
}

/// `prefix` begins `text`.
pub open spec fn starts_with(text: Seq<char>, prefix: Seq<char>) -> bool {
    occurs_at(text, prefix, 0)
}

/// The White_Space property of Unicode, by which `char::is_whitespace` and
/// `str::trim` go: tab, line feed, vertical tab, form feed, carriage return,
/// space, next line, no-break space, Ogham space mark, the spaces from en quad
/// to hair space, line and paragraph separator, narrow no-break space, medium
/// mathematical space and ideographic space.
pub open spec fn is_white_space(c: char) -> bool {
    let code = c as u32;
    ||| 0x09 <= code <= 0x0d
    ||| code == 0x20
    ||| code == 0x85
    ||| code == 0xa0
    ||| code == 0x1680
    ||| 0x2000 <= code <= 0x200a
    ||| code == 0x2028
    ||| code == 0x2029
    ||| code == 0x202f
    ||| code == 0x205f
    ||| code == 0x3000
}

/// `text` without its leading white space.
pub open spec fn trim_start(text: Seq<char>) -> Seq<char>
    decreases text.len(),
{
    if text.len() > 0 && is_white_space(text[0]) {
        trim_start(text.drop_first())
    } else {
        text
    }
}

/// `text` without its trailing white space.
pub open spec fn trim_end(text: Seq<char>) -> Seq<char>
    decreases text.len(),
{
    if text.len() > 0 && is_white_space(text.last()) {
        trim_end(text.drop_last())
    } else {
        text
    }
}

/// `text` without leading and trailing white space, as `str::trim` gives it.
pub open spec fn trim(text: Seq<char>) -> Seq<char> {
    trim_end(trim_start(text))
}

/// The code of `c` with ASCII capitals made small.
pub open spec fn ascii_lowercase_code(c: char) -> u32 {
    if 'A' <= c && c <= 'Z' {
        (c as u32 + 32) as u32
    } else {
        c as u32
    }
}

/// `a` and `b` are equal but for the case of ASCII letters.
pub open spec fn eq_ignore_ascii_case(a: Seq<char>, b: Seq<char>) -> bool {
    &&& a.len() == b.len()
    &&& forall|i: int| 0 <= i < a.len() ==> ascii_lowercase_code(a[i]) == ascii_lowercase_code(b[i])
}

/// Whether `c` has the White_Space property of Unicode, as
/// `char::is_whitespace` tells it.
pub fn is_whitespace(c: char) -> (b: bool)
    ensures
        b == is_white_space(c),
{
    let code = c as u32;
    (0x09 <= code && code <= 0x0d) || code == 0x20 || code == 0x85 || code == 0xa0 || code == 0x1680
        || (0x2000 <= code && code <= 0x200a) || code == 0x2028 || code == 0x2029 || code == 0x202f
        || code == 0x205f || code == 0x3000
}

/// The first index at or after `from` where `pattern` occurs in `text`.
pub fn find_from(text: &Vec<char>, pattern: &Vec<char>, from: usize) -> (found: Option<usize>)
    requires
        from <= text@.len(),
    ensures
        found matches Some(i) ==> from <= i && occurs_at(text@, pattern@, i as int) && forall|j: int|
            from <= j < i ==> !occurs_at(text@, pattern@, j),
        found is None ==> forall|j: int| from <= j ==> !occurs_at(text@, pattern@, j),
{
    if pattern.len() == 0 {
        assert(text@.subrange(from as int, from as int) =~= pattern@);
        return Some(from);
    }
    if pattern.len() > text.len() {
        return None;
    }
    let last = text.len() - pattern.len();
    let mut i = from;
    while i <= last
        invariant
            from <= i,
            pattern@.len() > 0,
            last < usize::MAX,
            text@.len() <= usize::MAX,
            last == text@.len() - pattern@.len(),
            forall|j: int| from <= j < i ==> !occurs_at(text@, pattern@, j),
        decreases last + 1 - i,
    {
        let mut k: usize = 0;
        while k < pattern.len() && text[i + k] == pattern[k]
            invariant
                i <= last,
                last == text@.len() - pattern@.len(),
                i + pattern@.len() <= text@.len(),
                text@.len() <= usize::MAX,
                k <= pattern@.len(),
                text@.subrange(i as int, i + k) == pattern@.subrange(0, k as int),
            decreases pattern@.len() - k,
        {
            assert(text@.subrange(i as int, i + k + 1) =~= text@.subrange(i as int, i + k).push(
                text@[i + k],
            ));
            assert(pattern@.subrange(0, k + 1) =~= pattern@.subrange(0, k as int).push(pattern@[k as int]));
            k = k + 1;
        }
        if k == pattern.len() {
            assert(pattern@.subrange(0, pattern@.len() as int) =~= pattern@);
            return Some(i);
        }
        assert(text@.subrange(i as int, i + pattern@.len())[k as int] != pattern@[k as int]);
        i = i + 1;
    }
    None
}

/// Where `str::split_once` cuts the part of `text` from `start` on at the
/// first occurrence of `pattern`: the index of that occurrence in `text`.
pub fn split_once_from(text: &Vec<char>, start: usize, pattern: &Vec<char>) -> (found: Option<usize>)
    requires
        start <= text@.len(),
    ensures
        match split_once(text@.subrange(start as int, text@.len() as int), pattern@) {
            None => found is None,
            Some((before, after)) => found matches Some(i) && start <= i && i + pattern@.len()
                <= text@.len() && before == text@.subrange(start as int, i as int) && after
                == text@.subrange(i + pattern@.len(), text@.len() as int),
        },
{
    let found = find_from(text, pattern, start);
    let ghost rest = text@.subrange(start as int, text@.len() as int);
    proof {
        assert forall|j: int| 0 <= j implies occurs_at(rest, pattern@, j) == occurs_at(
            text@,
            pattern@,
            j + start,
        ) by {
            if j + pattern@.len() <= rest.len() {
                assert(rest.subrange(j, j + pattern@.len()) =~= text@.subrange(
                    j + start,
                    j + start + pattern@.len(),
                ));
            }
        }
        match found {
            Some(i) => {
                let k = i - start;
                assert(occurs_at(rest, pattern@, k));
                assert(first_occurs_at(rest, pattern@, k));
                let c = choose|c: int| first_occurs_at(rest, pattern@, c);
                if c < k {
                    assert(occurs_at(text@, pattern@, c + start));
                } else if k < c {
                    assert(!occurs_at(rest, pattern@, k));
                }
                assert(rest.subrange(0, k) =~= text@.subrange(start as int, i as int));
                assert(rest.subrange(k + pattern@.len(), rest.len() as int) =~= text@.subrange(
                    i + pattern@.len(),
                    text@.len() as int,
                ));
            },
            None => {
                assert forall|j: int| !occurs_at(rest, pattern@, j) by {
                    if 0 <= j {
                        assert(!occurs_at(text@, pattern@, j + start));
                    }
                }
            },
        }
    }
    found
}

/// The bounds of `text` from `from` to `to` without leading and trailing
/// white space, as `str::trim` cuts them.
pub fn trim_bounds(text: &Vec<char>, from: usize, to: usize) -> (bounds: (usize, usize))
    requires
        from <= to <= text@.len(),
    ensures
        from <= bounds.0 <= bounds.1 <= to,
        text@.subrange(bounds.0 as int, bounds.1 as int) == trim(
            text@.subrange(from as int, to as int),
        ),
{
    let mut start = from;
    while start < to && is_whitespace(text[start])
        invariant
            from <= start <= to <= text@.len(),
            trim_start(text@.subrange(from as int, to as int)) == trim_start(
                text@.subrange(start as int, to as int),
            ),
        decreases to - start,
    {
        assert(text@.subrange(start as int, to as int).drop_first() =~= text@.subrange(
            start + 1,
            to as int,
        ));
        start = start + 1;
    }
    let mut end = to;
    while end > start && is_whitespace(text[end - 1])
        invariant
            start <= end <= to <= text@.len(),
            trim_end(text@.subrange(start as int, to as int)) == trim_end(
                text@.subrange(start as int, end as int),
            ),
        decreases end - start,
    {
        assert(text@.subrange(start as int, end as int).drop_last() =~= text@.subrange(
            start as int,
            end - 1,
        ));
        end = end - 1;
    }
    (start, end)
}

/// The code of `c` with ASCII capitals made small.
pub fn ascii_lowercase(c: char) -> (code: u32)
    ensures
        code == ascii_lowercase_code(c),
{
    if 'A' <= c && c <= 'Z' {
        c as u32 + 32
    } else {
        c as u32
    }
}

/// The characters of `text` from `from` to `to` equal `other` but for the
/// case of ASCII letters.
pub fn range_eq_ignore_ascii_case(text: &Vec<char>, from: usize, to: usize, other: &Vec<char>) -> (same: bool)
    requires
        from <= to <= text@.len(),
    ensures
        same == eq_ignore_ascii_case(text@.subrange(from as int, to as int), other@),
{
    let ghost part = text@.subrange(from as int, to as int);
    if to - from != other.len() {
        return false;
    }
    let mut i: usize = 0;
    while i < other.len()
        invariant
            from <= to <= text@.len(),
            to - from == other@.len(),
            part == text@.subrange(from as int, to as int),
            i <= other@.len(),
            forall|j: int| 0 <= j < i ==> ascii_lowercase_code(part[j]) == ascii_lowercase_code(
                other@[j],
            ),
        decreases other@.len() - i,
    {
        if ascii_lowercase(text[from + i]) != ascii_lowercase(other[i]) {
            assert(part[i as int] == text@[from + i]);
            return false;
        }
        i = i + 1;
    }
    true
}

} // verus!
