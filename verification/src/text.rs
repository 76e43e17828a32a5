//! Small operations on text, stated over sequences of characters.

use vstd::prelude::*;

verus! {

/// Whether `text` ends with `suffix`.
pub open spec fn is_suffix(text: Seq<char>, suffix: Seq<char>) -> bool {
    suffix.len() <= text.len() && text.subrange(text.len() - suffix.len(), text.len() as int)
        == suffix
}

/// Whether `text` begins with `prefix`.
pub open spec fn is_prefix(text: Seq<char>, prefix: Seq<char>) -> bool {
    prefix.len() <= text.len() && text.subrange(0, prefix.len() as int) == prefix
}

/// `text` without one line feed at its end, if it has one.
pub open spec fn chomp(text: Seq<char>) -> Seq<char> {
    if text.len() > 0 && text.last() == '\n' {
        text.drop_last()
    } else {
        text
    }
}

/// The characters of each line of a list of lines.
pub open spec fn lines(list: Seq<String>) -> Seq<Seq<char>> {
    Seq::new(list.len(), |i: int| list[i]@)
}

/// The characters of an optional text.
pub open spec fn text_of(value: Option<String>) -> Option<Seq<char>> {
    match value {
        Some(text) => Some(text@),
        None => None,
    }
}

/// The characters of an optional borrowed text.
pub open spec fn str_of(value: Option<&str>) -> Option<Seq<char>> {
    match value {
        Some(text) => Some(text@),
        None => None,
    }
}

/// Tells whether `text` ends with `suffix`.
pub fn ends_with(text: &str, suffix: &str) -> (b: bool)
    ensures
        b == is_suffix(text@, suffix@),
{
    let n: usize = text.unicode_len();
    let m: usize = suffix.unicode_len();
    if m > n {
        return false;
    }
    let start: usize = n - m;
    let ghost tail = text@.subrange(start as int, n as int);
    let mut k: usize = 0;
    while k < m
        invariant
            n == text@.len(),
            m == suffix@.len(),
            start == n - m,
            k <= m,
            tail == text@.subrange(start as int, n as int),
            forall|j: int| 0 <= j < k ==> tail[j] == suffix@[j],
        decreases m - k,
    {
        if text.get_char(start + k) != suffix.get_char(k) {
            assert(tail[k as int] != suffix@[k as int]);
            return false;
        }
        k += 1;
    }
    assert(tail =~= suffix@);
    true
}

/// Tells whether `text` begins with `prefix`.
pub fn starts_with(text: &str, prefix: &str) -> (b: bool)
    ensures
        b == is_prefix(text@, prefix@),
{
    let n: usize = text.unicode_len();
    let m: usize = prefix.unicode_len();
    if m > n {
        return false;
    }
    let ghost head = text@.subrange(0, m as int);
    let mut k: usize = 0;
    while k < m
        invariant
            n == text@.len(),
            m == prefix@.len(),
            m <= n,
            k <= m,
            head == text@.subrange(0, m as int),
            forall|j: int| 0 <= j < k ==> head[j] == prefix@[j],
        decreases m - k,
    {
        if text.get_char(k) != prefix.get_char(k) {
            assert(head[k as int] != prefix@[k as int]);
            return false;
        }
        k += 1;
    }
    assert(head =~= prefix@);
    true
}

/// `text` from its character `from` on.
pub fn skip_chars<'a>(text: &'a str, from: usize) -> (rest: &'a str)
    requires
        from <= text@.len(),
    ensures
        rest@ == text@.subrange(from as int, text@.len() as int),
{
    let n: usize = text.unicode_len();
    text.substring_char(from, n)
}

/// `text` without one line feed at its end, if it has one.
pub fn strip_newline<'a>(text: &'a str) -> (line: &'a str)
    ensures
        line@ == chomp(text@),
{
    let n: usize = text.unicode_len();
    if n > 0 && text.get_char(n - 1) == '\n' {
        text.substring_char(0, n - 1)
    } else {
        text
    }
}

/// The three texts joined.
pub fn join3(first: &str, second: &str, third: &str) -> (joined: String)
    ensures
        joined@ == first@ + second@ + third@,
{
    let mut joined = String::new();
    joined.append(first);
    joined.append(second);
    joined.append(third);
    assert(joined@ =~= first@ + second@ + third@);
    joined
}

} // verus!
