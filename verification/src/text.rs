//! Questions about strings that the rest of the crate asks.

use vstd::prelude::*;

verus! {

/// Whether `needle` stands somewhere in `hay` as one piece.
pub open spec fn occurs_in(needle: Seq<char>, hay: Seq<char>) -> bool {
    exists|i: int|
        0 <= i && i + needle.len() <= hay.len() && #[trigger] hay.subrange(i, i + needle.len())
            == needle
}

/// Whether `s` begins with `prefix`.
pub open spec fn begins_with(s: Seq<char>, prefix: Seq<char>) -> bool {
    prefix.len() <= s.len() && s.subrange(0, prefix.len() as int) == prefix
}

/// The characters of a string, in order.
pub fn chars_of(s: &str) -> (chars: Vec<char>)
    ensures
        chars@ == s@,
{
    let mut chars: Vec<char> = Vec::new();
    for c in it: s.chars()
        invariant
            it.seq() == s@,
            chars@.len() == it.index(),
            forall|j: int| 0 <= j < it.index() ==> chars@[j] == s@[j],
    {
        chars.push(c);
    }
    assert(chars@ =~= s@);
    chars
}

/// Whether `needle` stands in `hay` at the place `at`.
fn stands_at(hay: &Vec<char>, needle: &Vec<char>, at: usize) -> (found: bool)
    requires
        at + needle.len() <= hay.len(),
    ensures
        found == (hay@.subrange(at as int, at + needle.len()) == needle@),
{
    let ghost piece = hay@.subrange(at as int, at + needle.len());
    let mut i: usize = 0;
    while i < needle.len()
        invariant
            i <= needle.len(),
            at + needle.len() <= hay.len(),
            piece == hay@.subrange(at as int, at + needle.len()),
            forall|j: int| 0 <= j < i ==> piece[j] == needle@[j],
        decreases needle.len() - i,
    {
        assert(piece[i as int] == hay@[at + i]);
        if hay[at + i] != needle[i] {
            return false;
        }
        i += 1;
    }
    assert(piece =~= needle@);
    true
}

/// Whether `needle` stands somewhere in `hay` as one piece.
pub fn str_contains(hay: &str, needle: &str) -> (found: bool)
    ensures
        found == occurs_in(needle@, hay@),
{
    let hay_chars = chars_of(hay);
    let needle_chars = chars_of(needle);
    if needle_chars.len() > hay_chars.len() {
        return false;
    }
    let last = hay_chars.len() - needle_chars.len();
    let mut at: usize = 0;
    loop
        invariant
            at <= last,
            last == hay_chars.len() - needle_chars.len(),
            needle_chars.len() <= hay_chars.len(),
            hay_chars@ == hay@,
            needle_chars@ == needle@,
            forall|i: int|
                0 <= i < at ==> #[trigger] hay@.subrange(i, i + needle@.len()) != needle@,
        decreases last - at,
    {
        if stands_at(&hay_chars, &needle_chars, at) {
            return true;
        }
        if at == last {
            return false;
        }
        at += 1;
    }
}

/// Whether `s` begins with `prefix`.
pub fn str_starts_with(s: &str, prefix: &str) -> (found: bool)
    ensures
        found == begins_with(s@, prefix@),
{
    let chars = chars_of(s);
    let prefix_chars = chars_of(prefix);
    if prefix_chars.len() > chars.len() {
        return false;
    }
    stands_at(&chars, &prefix_chars, 0)
}

/// `str::split_once` of the standard library, for a `char` delimiter: the
/// part before the first occurrence of the delimiter and the part after it,
/// or `None` where the delimiter does not occur.
#[verifier::external_body]
pub(crate) fn split_at_first(s: &str, delimiter: char) -> (parts: Option<(String, String)>)
    ensures
        match parts {
            Some((head, tail)) => s@ == head@ + seq![delimiter] + tail@ && !head@.contains(
                delimiter,
            ),
            None => !s@.contains(delimiter),
        },
{
    match s.split_once(delimiter) {
        Some((head, tail)) => Some((head.to_string(), tail.to_string())),
        None => None,
    }
}

/// Whether the first `c` of `s` stands at `i`.
pub open spec fn first_at(s: Seq<char>, c: char, i: int) -> bool {
    0 <= i < s.len() && s[i] == c && !s.subrange(0, i).contains(c)
}

/// The place of the first `c` of `s`.
pub open spec fn first_place(s: Seq<char>, c: char) -> int {
    choose|i: int| first_at(s, c, i)
}

/// What stands before the first `c` of `s`; the whole of `s` without a `c`.
pub open spec fn before_first(s: Seq<char>, c: char) -> Seq<char> {
    if s.contains(c) {
        s.subrange(0, first_place(s, c))
    } else {
        s
    }
}

/// What stands after the first `c` of `s`; nothing without a `c`.
pub open spec fn after_first(s: Seq<char>, c: char) -> Seq<char> {
    if s.contains(c) {
        s.subrange(first_place(s, c) + 1, s.len() as int)
    } else {
        Seq::empty()
    }
}

/// A string has one first `c` at most.
pub proof fn lemma_first_is_unique(s: Seq<char>, c: char, i: int, j: int)
    requires
        first_at(s, c, i),
        first_at(s, c, j),
    ensures
        i == j,
{
    if i < j {
        assert(s.subrange(0, j)[i] == c);
    } else if j < i {
        assert(s.subrange(0, i)[j] == c);
    }
}

/// A string that is `head`, `c` and `tail`, with no `c` in `head`, has
/// `head` before its first `c` and `tail` after it.
pub proof fn lemma_parts_around_first(s: Seq<char>, c: char, head: Seq<char>, tail: Seq<char>)
    requires
        s == head + seq![c] + tail,
        !head.contains(c),
    ensures
        s.contains(c),
        first_place(s, c) == head.len(),
        before_first(s, c) == head,
        after_first(s, c) == tail,
{
    let i = head.len() as int;
    assert(s[i] == c);
    assert(s.subrange(0, i) =~= head);
    assert(first_at(s, c, i));
    lemma_first_is_unique(s, c, i, first_place(s, c));
    assert(s.subrange(i + 1, s.len() as int) =~= tail);
}

/// Splits a string at the first `delimiter`: what stands before it and what
/// stands after it, or `None` where the string holds none.
pub fn split_first(s: &str, delimiter: char) -> (parts: Option<(String, String)>)
    ensures
        parts is Some <==> s@.contains(delimiter),
        parts matches Some((head, tail)) ==> head@ == before_first(s@, delimiter) && tail@
            == after_first(s@, delimiter),
{
    match split_at_first(s, delimiter) {
        Some((head, tail)) => {
            proof {
                lemma_parts_around_first(s@, delimiter, head@, tail@);
            }
            Some((head, tail))
        },
        None => None,
    }
}

/// What `str::to_lowercase` of the standard library makes of a string.
pub uninterp spec fn lowercase_of(s: Seq<char>) -> Seq<char>;

/// What `char::is_alphanumeric` of the standard library says of a character.
pub uninterp spec fn alphanumeric(c: char) -> bool;

/// `str::to_lowercase` of the standard library: the lowercase equivalent of
/// the string, by the rules of Unicode.
#[verifier::external_body]
pub(crate) fn to_lowercase(s: &str) -> (lower: String)
    ensures
        lower@ == lowercase_of(s@),
{
    s.to_lowercase()
}

/// `char::is_alphanumeric` of the standard library: whether the character
/// is a letter or a number, by the rules of Unicode.
#[verifier::external_body]
pub(crate) fn is_alphanumeric(c: char) -> (b: bool)
    ensures
        b == alphanumeric(c),
{
    c.is_alphanumeric()
}

/// `String::push` of the standard library: appends the character to the
/// end of the string.
#[verifier::external_body]
pub(crate) fn push_char(s: &mut String, c: char)
    ensures
        final(s)@ == old(s)@.push(c),
{
    s.push(c)
}

/// A copy of the strings.
pub fn copy_strings(items: &Vec<String>) -> (copy: Vec<String>)
    ensures
        copy.deep_view() == items.deep_view(),
{
    let mut copy: Vec<String> = Vec::new();
    let mut i: usize = 0;
    while i < items.len()
        invariant
            i <= items.len(),
            copy@.len() == i,
            forall|j: int| 0 <= j < i ==> copy@[j]@ == items@[j]@,
        decreases items.len() - i,
    {
        copy.push(items[i].clone());
        i += 1;
    }
    assert(copy.deep_view() =~= items.deep_view());
    copy
}

/// A copy of the pairs.
pub fn copy_pairs(items: &Vec<(String, String)>) -> (copy: Vec<(String, String)>)
    ensures
        copy.deep_view() == items.deep_view(),
{
    let mut copy: Vec<(String, String)> = Vec::new();
    let mut i: usize = 0;
    while i < items.len()
        invariant
            i <= items.len(),
            copy@.len() == i,
            forall|j: int|
                0 <= j < i ==> copy@[j].0@ == items@[j].0@ && copy@[j].1@ == items@[j].1@,
        decreases items.len() - i,
    {
        copy.push((items[i].0.clone(), items[i].1.clone()));
        i += 1;
    }
    assert(copy.deep_view() =~= items.deep_view());
    copy
}

} // verus!
