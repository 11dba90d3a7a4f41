//! Text helpers shared by the connectors and the channel renderers.

use vstd::prelude::*;
use vstd::string::*;

verus! {

/// `String::push` appends one character to the end of the string.
pub assume_specification[ String::push ](s: &mut String, c: char)
    ensures
        final(s)@ == old(s)@.push(c),
;

/// `str`'s `==` compares two texts character by character.
pub assume_specification[ <str as PartialEq>::eq ](a: &str, b: &str) -> (same: bool)
    ensures
        same == (a@ == b@),
;

/// The index just past the last `/` of `s`, or 0 where `s` holds none.
pub open spec fn after_last_slash(s: Seq<char>) -> int
    decreases s.len(),
{
    if s.len() == 0 {
        0
    } else if s.last() == '/' {
        s.len() as int
    } else {
        after_last_slash(s.drop_last())
    }
}

/// The part of an identifier that follows its last `/`; the whole identifier
/// where it holds no `/`.
pub open spec fn short_name(s: Seq<char>) -> Seq<char> {
    s.subrange(after_last_slash(s), s.len() as int)
}

/// A timestamp as it is shown to a reader: every `T` becomes a blank and
/// every `Z` is dropped; all other characters stay in place.
pub open spec fn display_time(s: Seq<char>) -> Seq<char>
    decreases s.len(),
{
    if s.len() == 0 {
        Seq::empty()
    } else if s.last() == 'T' {
        display_time(s.drop_last()).push(' ')
    } else if s.last() == 'Z' {
        display_time(s.drop_last())
    } else {
        display_time(s.drop_last()).push(s.last())
    }
}

/// A capital letter of ASCII as its small letter; any other character as it
/// is.
pub open spec fn lower(c: char) -> char {
    if 'A' <= c && c <= 'Z' {
        ((c as u8) + 32) as char
    } else {
        c
    }
}

/// A text with its ASCII capitals made small.
pub open spec fn lowercase(s: Seq<char>) -> Seq<char> {
    Seq::new(s.len(), |i: int| lower(s[i]))
}

/// Whether two texts are the same but for the case of their ASCII letters.
pub open spec fn same_ignoring_case(a: Seq<char>, b: Seq<char>) -> bool {
    lowercase(a) == lowercase(b)
}

/// The index just past the last `/` lies within the text.
pub proof fn lemma_after_last_slash_bounds(s: Seq<char>)
    ensures
        0 <= after_last_slash(s) <= s.len(),
    decreases s.len(),
{
    if s.len() > 0 && s.last() != '/' {
        lemma_after_last_slash_bounds(s.drop_last());
    }
}

/// The short name holds no `/`, and the identifier ends with it.
pub proof fn lemma_short_name_is_suffix(s: Seq<char>)
    ensures
        short_name(s).len() <= s.len(),
        short_name(s) == s.skip(s.len() - short_name(s).len()),
        !short_name(s).contains('/'),
        after_last_slash(s) > 0 ==> s[after_last_slash(s) - 1] == '/',
    decreases s.len(),
{
    lemma_after_last_slash_bounds(s);
    if s.len() > 0 && s.last() != '/' {
        let t = s.drop_last();
        lemma_short_name_is_suffix(t);
        lemma_after_last_slash_bounds(t);
        assert forall|i: int| 0 <= i < short_name(s).len() implies short_name(s)[i] != '/' by {
            if i < short_name(t).len() {
                assert(short_name(t).contains(short_name(t)[i]));
            }
        }
    }
}

/// An identifier without any `/` is its own short name.
pub proof fn lemma_short_name_without_slash(s: Seq<char>)
    requires
        !s.contains('/'),
    ensures
        after_last_slash(s) == 0,
        short_name(s) == s,
    decreases s.len(),
{
    if s.len() > 0 {
        lemma_short_name_without_slash(s.drop_last());
    }
}

/// Computes the short name of an identifier such as `owner/repo`.
pub fn app_name(repo: &str) -> (name: String)
    ensures
        name@ == short_name(repo@),
{
    let mut name = String::new();
    let ghost mut seen: Seq<char> = Seq::empty();
    for c in it: repo.chars()
        invariant
            it.seq() == repo@,
            seen == repo@.take(it.index()),
            name@ == short_name(seen),
    {
        proof {
            let next = seen.push(c);
            assert(next.drop_last() == seen);
            lemma_after_last_slash_bounds(seen);
            seen = next;
        }
        if c == '/' {
            name = String::new();
        } else {
            name.push(c);
        }
    }
    assert(repo@.take(repo@.len() as int) == repo@);
    name
}

/// Renders a timestamp such as `2024-05-01T10:00:00Z` for display.
pub fn readable_time(published_at: &str) -> (shown: String)
    ensures
        shown@ == display_time(published_at@),
{
    let mut shown = String::new();
    let ghost mut seen: Seq<char> = Seq::empty();
    for c in it: published_at.chars()
        invariant
            it.seq() == published_at@,
            seen == published_at@.take(it.index()),
            shown@ == display_time(seen),
    {
        proof {
            let next = seen.push(c);
            assert(next.drop_last() == seen);
            seen = next;
        }
        if c == 'T' {
            shown.push(' ');
        } else if c != 'Z' {
            shown.push(c);
        }
    }
    assert(published_at@.take(published_at@.len() as int) == published_at@);
    shown
}

/// Makes the ASCII capitals of a text small.
pub fn ascii_lowercase(text: &str) -> (small: String)
    ensures
        small@ == lowercase(text@),
{
    let mut small = String::new();
    for c in it: text.chars()
        invariant
            it.seq() == text@,
            small@ == lowercase(text@.take(it.index())),
    {
        if 'A' <= c && c <= 'Z' {
            small.push(((c as u8) + 32) as char);
        } else {
            small.push(c);
        }
        assert(small@ == lowercase(text@.take(it.index() + 1)));
    }
    assert(text@.take(text@.len() as int) == text@);
    small
}

/// Compares two texts without regard to the case of their ASCII letters.
pub fn eq_ignoring_case(a: &str, b: &str) -> (same: bool)
    ensures
        same == same_ignoring_case(a@, b@),
{
    let a = ascii_lowercase(a);
    let b = ascii_lowercase(b);
    a == b
}

/// Appends two characters.
pub fn push_pair(text: &mut String, first: char, second: char)
    ensures
        final(text)@ == old(text)@.push(first).push(second),
{
    text.push(first);
    text.push(second);
}

} // verus!
