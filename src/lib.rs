//! A file-tree search library: the entries that a directory walk yields are
//! classified by kind, kept or dropped by a name filter and a kind filter,
//! and the kept paths are gathered root by root.

pub mod entry;
pub mod filter;
pub mod pattern;
pub mod search;

pub use entry::{classify, parse_type, Entry, EntryType, WalkItem};
pub use filter::{name_matches, type_matches, Args};
pub use pattern::{NamePattern, PatternError};
pub use search::{search, search_root, Report};
