//! How the denylist file is made: the entries of a public blocklist, less
//! those of an allowlist, one to a line.
//!
//! The blocklist comes in hosts format, in which a blocking line reads
//! `0.0.0.0 name`, with or without a comment behind the name. The allowlist
//! comes as filter rules, in which an allowing line reads `||name^`. Lines of
//! any other form are passed over. The file that is made holds plain domain
//! names: no white space, no comment, no dot of the root label.

use crate::text::string_of;
use vstd::hash_set::StringHashSet;
use vstd::prelude::*;
use vstd::string::*;

verus! {

/// The format of a list of names.
#[derive(Debug, Clone, Copy, PartialEq, Eq, Structural)]
pub enum ListFormat {
    /// Hosts format: a line of `0.0.0.0`, a space, and a name, which ends at
    /// the first white space or `#`, or with the line. The entry is the name
    /// without the dot of the root label at its end. A line with an empty
    /// name holds no entry.
    Hosts,
    /// Filter rules: a line of `||`, the entry, and `^`.
    FilterRules,
}

/// The lines of a text: what stands between its newlines. A text without a
/// newline is one line; a text that ends in a newline ends in an empty line.
pub open spec fn spec_lines(text: Seq<char>) -> Seq<Seq<char>>
    decreases text.len(),
{
    if text.len() == 0 {
        seq![Seq::<char>::empty()]
    } else {
        let before = spec_lines(text.drop_last());
        if text.last() == '\n' {
            before.push(Seq::<char>::empty())
        } else {
            before.drop_last().push(before.last().push(text.last()))
        }
    }
}

/// Whether a character ends a name in hosts format: white space (a space, a
/// tab, a carriage return, a form feed, a newline), and `#`, which starts a
/// comment.
pub open spec fn spec_ends_name(c: char) -> bool {
    c == ' ' || c == '\t' || c == '\r' || c == '\u{c}' || c == '\n' || c == '#'
}

/// How many characters stand at the start of `text` before the first that
/// ends a name.
pub open spec fn spec_name_length(text: Seq<char>) -> int
    decreases text.len(),
{
    if text.len() == 0 || spec_ends_name(text[0]) {
        0
    } else {
        1 + spec_name_length(text.drop_first())
    }
}

/// A name without the dot of the root label at its end. No dot is left at
/// the end, should there be more than one.
pub open spec fn spec_without_end_dots(name: Seq<char>) -> Seq<char>
    decreases name.len(),
{
    if name.len() > 0 && name.last() == '.' {
        spec_without_end_dots(name.drop_last())
    } else {
        name
    }
}

/// The name at the start of `text`: what stands before the first character
/// that ends a name, without the dot of the root label.
pub open spec fn spec_hosts_name(text: Seq<char>) -> Seq<char> {
    spec_without_end_dots(text.take(spec_name_length(text)))
}

/// Whether a line starts with `0.0.0.0` and a space.
pub open spec fn spec_blocks(line: Seq<char>) -> bool {
    line.len() >= 8 && line[0] == '0' && line[1] == '.' && line[2] == '0' && line[3] == '.' && line[4] == '0'
        && line[5] == '.' && line[6] == '0' && line[7] == ' '
}

/// The entry that a line holds in the given format, if it is of that form.
pub open spec fn spec_entry(line: Seq<char>, format: ListFormat) -> Option<Seq<char>> {
    match format {
        ListFormat::Hosts => if spec_blocks(line) && spec_hosts_name(line.skip(8)).len() > 0 {
            Some(spec_hosts_name(line.skip(8)))
        } else {
            None
        },
        ListFormat::FilterRules => if line.len() >= 3 && line[0] == '|' && line[1] == '|' && line.last() == '^' {
            Some(line.subrange(2, line.len() - 1))
        } else {
            None
        },
    }
}

/// The entries of a sequence of lines, in the order of the lines.
pub open spec fn spec_entries_of_lines(lines: Seq<Seq<char>>, format: ListFormat) -> Seq<Seq<char>>
    decreases lines.len(),
{
    if lines.len() == 0 {
        Seq::<Seq<char>>::empty()
    } else {
        let before = spec_entries_of_lines(lines.drop_last(), format);
        match spec_entry(lines.last(), format) {
            Some(entry) => before.push(entry),
            None => before,
        }
    }
}

/// The entries of a text in the given format, in the order of its lines.
pub open spec fn spec_entries(text: Seq<char>, format: ListFormat) -> Seq<Seq<char>> {
    spec_entries_of_lines(spec_lines(text), format)
}

/// What a list of names is to a contract.
pub open spec fn names_view(names: Seq<String>) -> Seq<Seq<char>> {
    names.map_values(|name: String| name@)
}

/// Whether a character ends a name in hosts format.
pub fn ends_name(c: char) -> (ends: bool)
    ensures
        ends == spec_ends_name(c),
{
    c == ' ' || c == '\t' || c == '\r' || c == '\u{c}' || c == '\n' || c == '#'
}

/// The entry that `line` holds in the given format, if it is of that form.
pub fn entry_of(line: &Vec<char>, format: ListFormat) -> (entry: Option<String>)
    ensures
        entry is Some <==> spec_entry(line@, format) is Some,
        entry matches Some(name) ==> spec_entry(line@, format) == Some(name@),
{
    let length = line.len();
    match format {
        ListFormat::Hosts => {
            if length >= 8 && line[0] == '0' && line[1] == '.' && line[2] == '0' && line[3] == '.' && line[4] == '0'
                && line[5] == '.' && line[6] == '0' && line[7] == ' ' {
                let ghost rest = line@.skip(8);
                let mut end: usize = 8;
                assert(rest.skip(0) =~= rest);
                while end < length && !ends_name(line[end])
                    invariant
                        8 <= end <= length == line.len(),
                        rest == line@.skip(8),
                        spec_name_length(rest) == (end - 8) + spec_name_length(rest.skip(end - 8)),
                    decreases length - end,
                {
                    assert(rest.skip(end - 8)[0] == line@[end as int]);
                    assert(rest.skip(end - 8).drop_first() =~= rest.skip(end - 8 + 1));
                    end += 1;
                }
                assert(spec_name_length(rest) == end - 8) by {
                    if end < length {
                        assert(rest.skip(end - 8)[0] == line@[end as int]);
                    }
                }
                assert(rest.take(end - 8) =~= line@.subrange(8, end as int));
                let ghost name = line@.subrange(8, end as int);
                while end > 8 && line[end - 1] == '.'
                    invariant
                        8 <= end <= length == line.len(),
                        spec_without_end_dots(name) == spec_without_end_dots(line@.subrange(8, end as int)),
                    decreases end,
                {
                    assert(line@.subrange(8, end as int).drop_last() =~= line@.subrange(8, end - 1));
                    end -= 1;
                }
                if end > 8 {
                    Some(string_of(line, 8, end))
                } else {
                    assert(line@.subrange(8, end as int).len() == 0);
                    None
                }
            } else {
                None
            }
        },
        ListFormat::FilterRules => {
            if length >= 3 && line[0] == '|' && line[1] == '|' && line[length - 1] == '^' {
                Some(string_of(line, 2, length - 1))
            } else {
                None
            }
        },
    }
}

/// The entries of `text` in the given format, in the order of its lines.
pub fn entries(text: &str, format: ListFormat) -> (found: Vec<String>)
    ensures
        names_view(found@) == spec_entries(text@, format),
{
    let mut found: Vec<String> = Vec::new();
    let mut line: Vec<char> = Vec::new();
    let ghost mut seen: Seq<char> = Seq::empty();
    for c in it: text.chars()
        invariant
            it.seq() == text@,
            seen == text@.take(it.index() as int),
            line@ == spec_lines(seen).last(),
            spec_lines(seen).len() > 0,
            names_view(found@) == spec_entries_of_lines(spec_lines(seen).drop_last(), format),
    {
        let ghost next = seen.push(c);
        proof {
            assert(next.drop_last() =~= seen);
            assert(next =~= text@.take(it.index() + 1));
        }
        if c == '\n' {
            let ghost before = names_view(found@);
            if let Some(entry) = entry_of(&line, format) {
                found.push(entry);
                assert(names_view(found@) =~= before.push(entry@));
            }
            line = Vec::new();
            proof {
                assert(spec_lines(next).drop_last() =~= spec_lines(seen));
                assert(spec_lines(seen).drop_last().push(spec_lines(seen).last()) =~= spec_lines(seen));
            }
        } else {
            line.push(c);
            proof {
                assert(spec_lines(next).drop_last() =~= spec_lines(seen).drop_last());
            }
        }
        proof {
            seen = next;
        }
    }
    proof {
        assert(seen =~= text@);
    }
    let ghost before = names_view(found@);
    if let Some(entry) = entry_of(&line, format) {
        found.push(entry);
        assert(names_view(found@) =~= before.push(entry@));
    }
    proof {
        let lines = spec_lines(text@);
        assert(lines.drop_last().push(lines.last()) =~= lines);
    }
    found
}

/// The names that an allowlist allows: its entries, and one name that is
/// allowed whatever the allowlist says.
pub open spec fn spec_allowed(allowlist: Seq<char>) -> Set<Seq<char>> {
    spec_entries(allowlist, ListFormat::FilterRules).to_set().insert("static.adsafeprotected.com"@)
}

/// The candidates that are kept: those that are not allowed, each where it
/// first occurs and only there.
pub open spec fn spec_kept(candidates: Seq<Seq<char>>, allowed: Set<Seq<char>>) -> Seq<Seq<char>>
    decreases candidates.len(),
{
    if candidates.len() == 0 {
        Seq::<Seq<char>>::empty()
    } else {
        let before = spec_kept(candidates.drop_last(), allowed);
        if allowed.contains(candidates.last()) || before.contains(candidates.last()) {
            before
        } else {
            before.push(candidates.last())
        }
    }
}

/// The text of a list of names: each name and a newline behind it.
pub open spec fn spec_render(names: Seq<Seq<char>>) -> Seq<char>
    decreases names.len(),
{
    if names.len() == 0 {
        Seq::<char>::empty()
    } else {
        spec_render(names.drop_last()) + names.last() + seq!['\n']
    }
}

/// The denylist file that a blocklist and an allowlist give.
pub open spec fn spec_deny_list(blocklist: Seq<char>, allowlist: Seq<char>) -> Seq<char> {
    spec_render(spec_kept(spec_entries(blocklist, ListFormat::Hosts), spec_allowed(allowlist)))
}

/// The names that `allowlist`, a text of filter rules, allows.
pub fn allowed_names(allowlist: &str) -> (allowed: StringHashSet)
    ensures
        allowed@ == spec_allowed(allowlist@),
{
    let found = entries(allowlist, ListFormat::FilterRules);
    let mut allowed = StringHashSet::new();
    allowed.insert(String::from_str("static.adsafeprotected.com"));
    let ghost names = names_view(found@);
    let mut i: usize = 0;
    while i < found.len()
        invariant
            i <= found.len(),
            names == names_view(found@),
            allowed@ == names.take(i as int).to_set().insert("static.adsafeprotected.com"@),
        decreases found.len() - i,
    {
        allowed.insert(found[i].clone());
        proof {
            let before = names.take(i as int);
            let after = names.take(i + 1);
            assert(after =~= before.push(names[i as int]));
            assert(after.to_set() =~= before.to_set().insert(names[i as int])) by {
                assert forall|name: Seq<char>| after.contains(name) <==> before.contains(name) || name == names[i as int] by {
                    if before.contains(name) {
                        let j = choose|j: int| 0 <= j < before.len() && before[j] == name;
                        assert(after[j] == name);
                    }
                    if name == names[i as int] {
                        assert(after[i as int] == name);
                    }
                }
            }
        }
        i += 1;
    }
    proof {
        assert(names.take(i as int) =~= names);
    }
    allowed
}

/// Makes the denylist file: the entries of `blocklist`, a text in hosts
/// format, that `allowlist`, a text of filter rules, does not allow. Each
/// entry stands on a line of its own, where the blocklist first names it.
pub fn deny_list(blocklist: &str, allowlist: &str) -> (text: String)
    ensures
        text@ == spec_deny_list(blocklist@, allowlist@),
{
    let candidates = entries(blocklist, ListFormat::Hosts);
    let mut excluded = allowed_names(allowlist);
    let ghost allowed = excluded@;
    let ghost names = names_view(candidates@);
    let mut text = String::new();
    let mut i: usize = 0;
    while i < candidates.len()
        invariant
            i <= candidates.len(),
            names == names_view(candidates@),
            excluded@ == allowed.union(spec_kept(names.take(i as int), allowed).to_set()),
            text@ == spec_render(spec_kept(names.take(i as int), allowed)),
        decreases candidates.len() - i,
    {
        let ghost kept = spec_kept(names.take(i as int), allowed);
        proof {
            assert(names.take(i + 1).drop_last() =~= names.take(i as int));
        }
        if !excluded.contains(candidates[i].as_str()) {
            text.append(candidates[i].as_str());
            text.push('\n');
            excluded.insert(candidates[i].clone());
            proof {
                let after = kept.push(names[i as int]);
                assert(after.drop_last() =~= kept);
                assert(text@ =~= spec_render(after));
                assert(excluded@ =~= allowed.union(after.to_set())) by {
                    assert forall|name: Seq<char>| after.contains(name) <==> kept.contains(name) || name == names[i as int] by {
                        if kept.contains(name) {
                            let j = choose|j: int| 0 <= j < kept.len() && kept[j] == name;
                            assert(after[j] == name);
                        }
                        if name == names[i as int] {
                            assert(after[kept.len() as int] == name);
                        }
                    }
                }
            }
        }
        i += 1;
    }
    proof {
        assert(names.take(i as int) =~= names);
    }
    text
}

/// A name is kept if and only if it is a candidate and not allowed, and no
/// name is kept twice.
pub proof fn law_kept_is_the_difference(candidates: Seq<Seq<char>>, allowed: Set<Seq<char>>)
    ensures
        forall|name: Seq<char>| #[trigger]
            spec_kept(candidates, allowed).contains(name) <==> candidates.contains(name) && !allowed.contains(name),
        spec_kept(candidates, allowed).no_duplicates(),
    decreases candidates.len(),
{
    let kept = spec_kept(candidates, allowed);
    if candidates.len() > 0 {
        let shorter = candidates.drop_last();
        let before = spec_kept(shorter, allowed);
        let last = candidates.last();
        law_kept_is_the_difference(shorter, allowed);
        assert forall|name: Seq<char>| #[trigger]
            kept.contains(name) <==> candidates.contains(name) && !allowed.contains(name) by {
            if kept.contains(name) {
                let j = choose|j: int| 0 <= j < kept.len() && kept[j] == name;
                if j < before.len() {
                    assert(before.contains(name));
                    let k = choose|k: int| 0 <= k < shorter.len() && shorter[k] == name;
                    assert(candidates[k] == name);
                } else {
                    assert(candidates[candidates.len() - 1] == name);
                }
            }
            if candidates.contains(name) && !allowed.contains(name) {
                let k = choose|k: int| 0 <= k < candidates.len() && candidates[k] == name;
                if k < shorter.len() {
                    assert(shorter[k] == name);
                    assert(before.contains(name));
                    let j = choose|j: int| 0 <= j < before.len() && before[j] == name;
                    assert(kept[j] == name);
                } else if before.contains(name) {
                    let j = choose|j: int| 0 <= j < before.len() && before[j] == name;
                    assert(kept[j] == name);
                } else {
                    assert(kept[kept.len() - 1] == name);
                }
            }
        }
    }
}

/// Lines put together again, with a newline between each two.
pub open spec fn spec_join(lines: Seq<Seq<char>>) -> Seq<char>
    decreases lines.len(),
{
    if lines.len() == 0 {
        Seq::<char>::empty()
    } else if lines.len() == 1 {
        lines[0]
    } else {
        spec_join(lines.drop_last()) + seq!['\n'] + lines.last()
    }
}

/// The lines of a text are what its newlines part it into: there is at least
/// one line, no line holds a newline, and the lines joined by newlines are
/// the text.
pub proof fn law_lines_part_the_text(text: Seq<char>)
    ensures
        spec_lines(text).len() > 0,
        forall|i: int, j: int|
            0 <= i < spec_lines(text).len() && 0 <= j < spec_lines(text)[i].len() ==> spec_lines(text)[i][j] != '\n',
        spec_join(spec_lines(text)) == text,
    decreases text.len(),
{
    let lines = spec_lines(text);
    if text.len() == 0 {
        assert(spec_join(lines) =~= text);
    } else {
        let shorter = text.drop_last();
        let before = spec_lines(shorter);
        law_lines_part_the_text(shorter);
        if text.last() == '\n' {
            assert(lines.drop_last() =~= before);
            assert(spec_join(lines) =~= text);
        } else {
            let grown = before.last().push(text.last());
            assert(lines.drop_last() =~= before.drop_last());
            if before.len() == 1 {
                assert(spec_join(lines) =~= text);
            } else {
                let head = spec_join(before.drop_last());
                assert(spec_join(before) == head + seq!['\n'] + before.last());
                assert(lines.last() == grown);
                assert(spec_join(lines) == head + seq!['\n'] + grown);
                assert(text =~= shorter.push(text.last()));
                assert(head + seq!['\n'] + grown =~= (head + seq!['\n'] + before.last()).push(text.last()));
            }
        }
    }
}

/// A name without the dots at its end is a part of the name from its start,
/// and does not end in a dot.
pub proof fn lemma_without_end_dots(name: Seq<char>)
    ensures
        spec_without_end_dots(name).len() <= name.len(),
        spec_without_end_dots(name) == name.take(spec_without_end_dots(name).len() as int),
        spec_without_end_dots(name).len() > 0 ==> spec_without_end_dots(name).last() != '.',
    decreases name.len(),
{
    if name.len() > 0 && name.last() == '.' {
        lemma_without_end_dots(name.drop_last());
        let kept = spec_without_end_dots(name).len() as int;
        assert(name.drop_last().take(kept) =~= name.take(kept));
    } else {
        assert(name.take(name.len() as int) =~= name);
    }
}

/// No character that ends a name stands before the place where the name at
/// the start of a text ends.
pub proof fn lemma_name_length(text: Seq<char>)
    ensures
        0 <= spec_name_length(text) <= text.len(),
        forall|i: int| 0 <= i < spec_name_length(text) ==> !spec_ends_name(#[trigger] text[i]),
    decreases text.len(),
{
    if text.len() > 0 && !spec_ends_name(text[0]) {
        let rest = text.drop_first();
        lemma_name_length(rest);
        assert forall|i: int| 0 <= i < spec_name_length(text) implies !spec_ends_name(#[trigger] text[i]) by {
            if i > 0 {
                assert(text[i] == rest[i - 1]);
            }
        }
    }
}

/// An entry of a blocklist in hosts format is a plain name: it is not empty,
/// holds no white space and no `#`, and does not end in a dot.
pub proof fn law_hosts_entries_are_plain_names(line: Seq<char>)
    ensures
        spec_entry(line, ListFormat::Hosts) matches Some(name) ==> {
            &&& name.len() > 0
            &&& name.last() != '.'
            &&& forall|i: int| 0 <= i < name.len() ==> !spec_ends_name(#[trigger] name[i])
        },
{
    if spec_entry(line, ListFormat::Hosts) is Some {
        let rest = line.skip(8);
        let whole = rest.take(spec_name_length(rest));
        let name = spec_hosts_name(rest);
        lemma_name_length(rest);
        lemma_without_end_dots(whole);
        assert forall|i: int| 0 <= i < name.len() implies !spec_ends_name(#[trigger] name[i]) by {
            assert(name[i] == whole[i]);
            assert(whole[i] == rest[i]);
        }
    }
}

} // verus!
