//! Texts as sequences of characters: what the library needs of strings and
//! does not find specified.

use vstd::prelude::*;
use vstd::string::*;

verus! {

/// `String::push` appends one character to the end of a string.
pub assume_specification[ String::push ](text: &mut String, c: char)
    ensures
        final(text)@ == old(text)@.push(c),
;

/// The characters of a text, in order.
pub fn chars_of(text: &str) -> (chars: Vec<char>)
    ensures
        chars@ == text@,
{
    let mut chars: Vec<char> = Vec::new();
    for c in it: text.chars()
        invariant
            it.seq() == text@,
            chars@ == text@.take(it.index() as int),
    {
        chars.push(c);
        assert(chars@ =~= text@.take(it.index() + 1));
    }
    assert(chars@ =~= text@);
    chars
}

/// The characters of `chars` from `from` up to `to`, as a string.
pub(crate) fn string_of(chars: &Vec<char>, from: usize, to: usize) -> (text: String)
    requires
        from <= to <= chars.len(),
    ensures
        text@ == chars@.subrange(from as int, to as int),
{
    let mut text = String::new();
    let mut i: usize = from;
    while i < to
        invariant
            from <= i <= to <= chars.len(),
            text@ == chars@.subrange(from as int, i as int),
        decreases to - i,
    {
        text.push(chars[i]);
        i += 1;
        assert(text@ =~= chars@.subrange(from as int, i as int));
    }
    text
}

/// A text in which every occurrence of `pattern` is replaced by `with`. The
/// occurrences are found from the left and do not overlap. The empty pattern
/// occurs before every character and at the end.
pub open spec fn spec_replace(text: Seq<char>, pattern: Seq<char>, with: Seq<char>) -> Seq<char>
    decreases text.len(),
{
    if pattern.len() == 0 {
        if text.len() == 0 {
            with
        } else {
            with + seq![text[0]] + spec_replace(text.skip(1), pattern, with)
        }
    } else if text.len() < pattern.len() {
        text
    } else if text.take(pattern.len() as int) == pattern {
        with + spec_replace(text.skip(pattern.len() as int), pattern, with)
    } else {
        seq![text[0]] + spec_replace(text.skip(1), pattern, with)
    }
}

/// Whether `pattern` stands in `text` at position `at`.
pub(crate) fn occurs_at(text: &Vec<char>, at: usize, pattern: &Vec<char>) -> (found: bool)
    requires
        at + pattern.len() <= text.len(),
    ensures
        found == (text@.subrange(at as int, at + pattern.len()) == pattern@),
{
    let mut i: usize = 0;
    while i < pattern.len()
        invariant
            i <= pattern.len(),
            at + pattern.len() <= text.len(),
            text@.subrange(at as int, at + i) == pattern@.take(i as int),
        decreases pattern.len() - i,
    {
        if text[at + i] != pattern[i] {
            assert(text@.subrange(at as int, at + pattern.len())[i as int] != pattern@[i as int]);
            return false;
        }
        i += 1;
        assert(text@.subrange(at as int, at + i) =~= pattern@.take(i as int));
    }
    assert(pattern@.take(i as int) =~= pattern@);
    true
}

/// Replaces every occurrence of `pattern` in `text` by `with`, as
/// `str::replace` does.
pub fn replace_all(text: &str, pattern: &str, with: &str) -> (replaced: String)
    ensures
        replaced@ == spec_replace(text@, pattern@, with@),
{
    let chars = chars_of(text);
    let wanted = chars_of(pattern);
    let length = chars.len();
    let width = wanted.len();
    let mut replaced = String::new();
    let mut i: usize = 0;
    assert(chars@.skip(0) =~= chars@);
    while i < length
        invariant
            i <= length == chars.len(),
            width == wanted.len(),
            chars@ == text@,
            wanted@ == pattern@,
            replaced@ + spec_replace(chars@.skip(i as int), wanted@, with@) == spec_replace(chars@, wanted@, with@),
        decreases length - i,
    {
        let ghost rest = chars@.skip(i as int);
        let ghost total = spec_replace(chars@, wanted@, with@);
        let ghost before = replaced@;
        if width == 0 {
            replaced.append(with);
            replaced.push(chars[i]);
            proof {
                assert(rest.skip(1) =~= chars@.skip(i + 1));
                assert(replaced@ + spec_replace(rest.skip(1), wanted@, with@) =~= before + spec_replace(
                    rest,
                    wanted@,
                    with@,
                ));
            }
            i += 1;
        } else if length - i >= width && occurs_at(&chars, i, &wanted) {
            replaced.append(with);
            proof {
                assert(rest.take(width as int) =~= chars@.subrange(i as int, i + width));
                assert(rest.skip(width as int) =~= chars@.skip(i + width));
                assert(replaced@ + spec_replace(rest.skip(width as int), wanted@, with@) =~= before + spec_replace(
                    rest,
                    wanted@,
                    with@,
                ));
            }
            i += width;
        } else {
            replaced.push(chars[i]);
            proof {
                assert(rest.skip(1) =~= chars@.skip(i + 1));
                if length - i >= width {
                    assert(rest.take(width as int) =~= chars@.subrange(i as int, i + width));
                    assert(spec_replace(rest, wanted@, with@) == seq![rest[0]] + spec_replace(
                        rest.skip(1),
                        wanted@,
                        with@,
                    ));
                } else {
                    assert(spec_replace(rest, wanted@, with@) == rest);
                    assert(spec_replace(rest.skip(1), wanted@, with@) == rest.skip(1));
                    assert(rest =~= seq![rest[0]] + rest.skip(1));
                }
                assert(replaced@ + spec_replace(rest.skip(1), wanted@, with@) =~= before + spec_replace(
                    rest,
                    wanted@,
                    with@,
                ));
            }
            i += 1;
        }
    }
    if width == 0 {
        replaced.append(with);
    }
    assert(replaced@ =~= spec_replace(chars@, wanted@, with@));
    replaced
}

} // verus!
