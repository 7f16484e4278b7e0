//! The entries that a directory walk hands over, and their kinds.

use vstd::prelude::*;

verus! {

/// The kind of a filesystem entry.
#[derive(Clone, Copy, Debug, PartialEq, Eq, Structural)]
pub enum EntryType {
    File,
    Dir,
    Link,
}

/// The kind given by an entry's own metadata (links are not followed): a
/// symbolic link first, then a directory, then a regular file; `None` for
/// anything else.
pub open spec fn kind_of(is_symlink: bool, is_dir: bool, is_file: bool) -> Option<EntryType> {
    if is_symlink {
        Some(EntryType::Link)
    } else if is_dir {
        Some(EntryType::Dir)
    } else if is_file {
        Some(EntryType::File)
    } else {
        None
    }
}

/// Classifies an entry from the three tests on its (unfollowed) metadata.
/// A symbolic link is a `Link` whatever it points to.
pub fn classify(is_symlink: bool, is_dir: bool, is_file: bool) -> (r: Option<EntryType>)
    ensures
        r == kind_of(is_symlink, is_dir, is_file),
        is_symlink ==> r == Some(EntryType::Link),
{
    if is_symlink {
        Some(EntryType::Link)
    } else if is_dir {
        Some(EntryType::Dir)
    } else if is_file {
        Some(EntryType::File)
    } else {
        None
    }
}

/// The kind that a one-letter token names: `f`, `d` or `l`.
pub open spec fn type_token(t: Seq<char>) -> Option<EntryType> {
    if t == seq!['f'] {
        Some(EntryType::File)
    } else if t == seq!['d'] {
        Some(EntryType::Dir)
    } else if t == seq!['l'] {
        Some(EntryType::Link)
    } else {
        None
    }
}

/// Reads a kind filter token; any token other than `f`, `d` and `l` is refused.
pub fn parse_type(token: &str) -> (r: Option<EntryType>)
    ensures
        r == type_token(token@),
{
    let n = token.unicode_len();
    if n != 1 {
        return None;
    }
    let c = token.get_char(0);
    assert(token@ =~= seq![c]);
    if c == 'f' {
        Some(EntryType::File)
    } else if c == 'd' {
        Some(EntryType::Dir)
    } else if c == 'l' {
        Some(EntryType::Link)
    } else {
        None
    }
}

/// One entry met by the walk: its displayed path, its base name and its kind.
pub struct Entry {
    pub path: String,
    pub name: String,
    pub kind: EntryType,
}

/// What the walk yields at each step: an entry, or the message of an error
/// met while reading some node.
pub enum WalkItem {
    Found(Entry),
    Failed(String),
}

} // verus!
