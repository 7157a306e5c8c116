//! Small helpers on strings and characters.

use vstd::prelude::*;
use vstd::string::*;

verus! {

/// The characters of `s`, in order.
pub fn chars_of(s: &str) -> (chars: Vec<char>)
    ensures
        chars@ == s@,
{
    let mut chars: Vec<char> = Vec::new();
    for c in it: s.chars()
        invariant
            it.seq() == s@,
            chars@ == it.seq().take(it.index() as int),
    {
        chars.push(c);
    }
    chars
}

/// Whether `a` and `b` hold the same characters.
pub fn same_chars(a: &Vec<char>, b: &Vec<char>) -> (same: bool)
    ensures
        same == (a@ == b@),
{
    if a.len() != b.len() {
        return false;
    }
    let mut i: usize = 0;
    while i < a.len()
        invariant
            i <= a.len(),
            a.len() == b.len(),
            a@.take(i as int) == b@.take(i as int),
        decreases a.len() - i,
    {
        if a[i] != b[i] {
            return false;
        }
        assert(a@.take(i + 1) == a@.take(i as int).push(a@[i as int]));
        assert(b@.take(i + 1) == b@.take(i as int).push(b@[i as int]));
        i = i + 1;
    }
    assert(a@.take(a.len() as int) == a@);
    assert(b@.take(b.len() as int) == b@);
    true
}

/// How often `needle` occurs in `hay`, going from the left and counting no character
/// twice. A `needle` without characters occurs nowhere.
pub open spec fn occurrences(hay: Seq<char>, needle: Seq<char>) -> nat
    decreases hay.len(),
{
    if needle.len() == 0 || hay.len() < needle.len() {
        0
    } else if hay.take(needle.len() as int) == needle {
        1 + occurrences(hay.skip(needle.len() as int), needle)
    } else {
        occurrences(hay.skip(1), needle)
    }
}

/// Whether `needle` stands in `hay` at position `at`.
fn starts_at(hay: &Vec<char>, at: usize, needle: &Vec<char>) -> (found: bool)
    requires
        at + needle.len() <= hay.len(),
    ensures
        found == (hay@.skip(at as int).take(needle.len() as int) == needle@),
{
    let ghost window = hay@.skip(at as int).take(needle.len() as int);
    let mut j: usize = 0;
    while j < needle.len()
        invariant
            j <= needle.len(),
            at + needle.len() <= hay.len(),
            window == hay@.skip(at as int).take(needle.len() as int),
            window.take(j as int) == needle@.take(j as int),
        decreases needle.len() - j,
    {
        assert(window[j as int] == hay@[at + j]);
        if hay[at + j] != needle[j] {
            return false;
        }
        assert(window.take(j + 1) == window.take(j as int).push(window[j as int]));
        assert(needle@.take(j + 1) == needle@.take(j as int).push(needle@[j as int]));
        j = j + 1;
    }
    assert(window.take(needle.len() as int) == window);
    assert(needle@.take(needle.len() as int) == needle@);
    true
}

/// Counts the occurrences of `needle` in `hay`.
pub fn count_occurrences(hay: &Vec<char>, needle: &Vec<char>) -> (count: usize)
    ensures
        count == occurrences(hay@, needle@),
{
    if needle.len() == 0 {
        return 0;
    }
    let mut count: usize = 0;
    let mut i: usize = 0;
    assert(hay@.skip(0) == hay@);
    while hay.len() - i >= needle.len()
        invariant
            i <= hay.len(),
            count <= i,
            needle.len() > 0,
            count + occurrences(hay@.skip(i as int), needle@) == occurrences(hay@, needle@),
        decreases hay.len() - i,
    {
        let ghost rest = hay@.skip(i as int);
        if starts_at(hay, i, needle) {
            assert(rest.skip(needle.len() as int) == hay@.skip(i + needle.len()));
            count = count + 1;
            i = i + needle.len();
        } else {
            assert(rest.skip(1) == hay@.skip(i + 1));
            i = i + 1;
        }
    }
    count
}

/// What `str::to_lowercase` returns for a string of the characters `s`.
pub uninterp spec fn str_lowercase(s: Seq<char>) -> Seq<char>;

/// Calls `str::to_lowercase`. Not proved: that the result is [`str_lowercase`] of the
/// argument's characters, which names that result.
#[verifier::external_body]
pub(crate) fn lowercase(s: &str) -> (lower: String)
    ensures
        lower@ == str_lowercase(s@),
{
    s.to_lowercase()
}

/// The characters that `char::to_uppercase` yields for `c`.
pub uninterp spec fn char_uppercase(c: char) -> Seq<char>;

/// Calls `char::to_uppercase` and collects what it yields. Not proved: that these are
/// [`char_uppercase`] of the character, which names them.
#[verifier::external_body]
pub(crate) fn uppercase_of(c: char) -> (upper: Vec<char>)
    ensures
        upper@ == char_uppercase(c),
{
    c.to_uppercase().collect()
}

/// The characters that `char::to_lowercase` yields for `c`.
pub uninterp spec fn char_lowercase(c: char) -> Seq<char>;

/// Calls `char::to_lowercase` and collects what it yields. Not proved: that these are
/// [`char_lowercase`] of the character, which names them.
#[verifier::external_body]
pub(crate) fn lowercase_of(c: char) -> (lower: Vec<char>)
    ensures
        lower@ == char_lowercase(c),
{
    c.to_lowercase().collect()
}

/// Calls `String::push`. Not proved: that the string afterwards is the string before with
/// `c` at its end.
#[verifier::external_body]
pub(crate) fn push_char(s: &mut String, c: char)
    ensures
        final(s)@ == old(s)@.push(c),
{
    s.push(c)
}

/// Appends the characters `chars` to `s`.
pub fn push_chars(s: &mut String, chars: &Vec<char>)
    ensures
        final(s)@ == old(s)@ + chars@,
{
    let mut i: usize = 0;
    while i < chars.len()
        invariant
            i <= chars.len(),
            s@ == old(s)@ + chars@.take(i as int),
        decreases chars.len() - i,
    {
        push_char(s, chars[i]);
        assert(chars@.take(i + 1) == chars@.take(i as int).push(chars@[i as int]));
        i = i + 1;
    }
    assert(chars@.take(chars.len() as int) == chars@);
}

} // verus!
