//! The denylist: the set of domain names that are answered with NXDOMAIN
//! whether they exist or not.
//!
//! Entries are stored without the dot of the root label; a queried name comes
//! root-terminated off the wire and loses that one dot before it is looked up.

use vstd::hash_set::StringHashSet;
use vstd::prelude::*;
use vstd::string::*;

verus! {

/// A name without the one trailing dot of the root label, if it had one.
pub open spec fn without_root_dot(name: Seq<char>) -> Seq<char> {
    if name.len() > 0 && name.last() == '.' {
        name.drop_last()
    } else {
        name
    }
}

/// Whether `line` could be read and holds exactly `name`.
pub open spec fn holds_name(line: Option<String>, name: Seq<char>) -> bool {
    line matches Some(text) && text@ == name
}

/// The names among `lines`: every line that could be read, as it is.
pub open spec fn names_of(lines: Seq<Option<String>>) -> Set<Seq<char>> {
    Set::new(|name: Seq<char>| exists|i: int| 0 <= i < lines.len() && #[trigger] holds_name(lines[i], name))
}

/// Removes the one trailing dot of the root label from a name, if it has one.
pub fn strip_root_dot(name: &str) -> (stripped: String)
    ensures
        stripped@ == without_root_dot(name@),
{
    let length = name.unicode_len();
    if length > 0 && name.get_char(length - 1) == '.' {
        String::from_str(name.substring_char(0, length - 1))
    } else {
        String::from_str(name)
    }
}

/// An immutable set of blocked domain names.
pub struct Denylist {
    names: StringHashSet,
}

impl View for Denylist {
    type V = Set<Seq<char>>;

    /// The blocked names.
    closed spec fn view(&self) -> Set<Seq<char>> {
        self.names@
    }
}

impl Denylist {
    /// A denylist that blocks nothing.
    pub fn empty() -> (list: Self)
        ensures
            list@ == Set::<Seq<char>>::empty(),
    {
        Denylist { names: StringHashSet::new() }
    }

    /// The denylist that a newline-delimited file of names gives.
    ///
    /// `source` is what reading the file gave: `None` where the file could not
    /// be opened, and else its lines in order, `None` for a line that could
    /// not be read. A missing file gives the empty denylist, an unreadable
    /// line is passed over, and every other line is an entry.
    pub fn load(source: &Option<Vec<Option<String>>>) -> (list: Self)
        ensures
            source is None ==> list@ == Set::<Seq<char>>::empty(),
            source matches Some(lines) ==> list@ == names_of(lines@),
    {
        let mut names = StringHashSet::new();
        if let Some(lines) = source {
            let mut i: usize = 0;
            while i < lines.len()
                invariant
                    i <= lines.len(),
                    names@ == names_of(lines@.take(i as int)),
                decreases lines.len() - i,
            {
                let ghost before = names@;
                if let Some(line) = &lines[i] {
                    names.insert(line.clone());
                }
                proof {
                    let prefix = lines@.take(i as int);
                    let next = lines@.take(i + 1);
                    assert forall|name: Seq<char>| names@.contains(name) <==> names_of(next).contains(name) by {
                        if names_of(next).contains(name) {
                            let j = choose|j: int| 0 <= j < next.len() && #[trigger] holds_name(next[j], name);
                            if j < i {
                                assert(holds_name(prefix[j], name));
                            }
                        }
                        if names@.contains(name) {
                            if before.contains(name) {
                                let j = choose|j: int| 0 <= j < prefix.len() && #[trigger] holds_name(prefix[j], name);
                                assert(holds_name(next[j], name));
                            } else {
                                assert(holds_name(next[i as int], name));
                            }
                        }
                    }
                    assert(names@ =~= names_of(next));
                }
                i += 1;
            }
            assert(lines@.take(i as int) =~= lines@);
        }
        Denylist { names }
    }

    /// Whether `name`, written without the dot of the root label, is blocked.
    pub fn contains(&self, name: &str) -> (found: bool)
        ensures
            found == self@.contains(name@),
    {
        self.names.contains(name)
    }

    /// Whether a queried name, as it comes off the wire, is blocked.
    pub fn blocks(&self, queried: &str) -> (blocked: bool)
        ensures
            blocked == self@.contains(without_root_dot(queried@)),
    {
        let name = strip_root_dot(queried);
        self.names.contains(name.as_str())
    }
}

} // verus!
