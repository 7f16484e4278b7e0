//! The two filters and the request that carries them.

use vstd::prelude::*;
use crate::entry::{Entry, EntryType};
use crate::pattern::{regex_finds, NamePattern};

verus! {

/// The kind filter admits `t`: no kind is asked for, or `t` is one of them.
pub open spec fn types_admit(types: Seq<EntryType>, t: EntryType) -> bool {
    types.len() == 0 || types.contains(t)
}

/// The name filter admits `name`: no pattern is given, or some pattern
/// matches somewhere in it.
pub open spec fn names_admit(patterns: Seq<Seq<char>>, name: Seq<char>) -> bool {
    patterns.len() == 0 || exists|i: int| 0 <= i < patterns.len() && regex_finds(#[trigger] patterns[i], name)
}

/// The texts of a list of compiled patterns.
pub open spec fn sources(patterns: Seq<NamePattern>) -> Seq<Seq<char>> {
    patterns.map_values(|p: NamePattern| p@)
}

/// With no kind asked for, every kind is admitted.
pub proof fn lemma_no_types_admit_all(t: EntryType)
    ensures
        types_admit(Seq::<EntryType>::empty(), t),
{
}

/// A kind filter admits exactly the kinds it lists, when it lists any.
pub proof fn lemma_types_admit_members(types: Seq<EntryType>, t: EntryType)
    ensures
        types.contains(t) ==> types_admit(types, t),
        types.len() > 0 && !types.contains(t) ==> !types_admit(types, t),
{
}

/// With no pattern given, every name is admitted.
pub proof fn lemma_no_patterns_admit_all(name: Seq<char>)
    ensures
        names_admit(Seq::<Seq<char>>::empty(), name),
{
}

/// A non-empty set of patterns admits a name exactly when one of its patterns
/// matches somewhere in the name.
pub proof fn lemma_names_admit_some_match(patterns: Seq<Seq<char>>, name: Seq<char>)
    requires
        patterns.len() > 0,
    ensures
        names_admit(patterns, name) <==> exists|i: int|
            0 <= i < patterns.len() && regex_finds(#[trigger] patterns[i], name),
{
}

/// Whether the kind filter `types` keeps an entry of kind `t`.
pub fn type_matches(t: EntryType, types: &Vec<EntryType>) -> (r: bool)
    ensures
        r == types_admit(types@, t),
{
    if types.len() == 0 {
        return true;
    }
    let mut i: usize = 0;
    while i < types.len()
        invariant
            0 <= i <= types@.len(),
            forall|j: int| 0 <= j < i ==> types@[j] != t,
        decreases types@.len() - i,
    {
        if types[i] == t {
            assert(types@[i as int] == t);
            return true;
        }
        i = i + 1;
    }
    assert(!types@.contains(t));
    false
}

/// Whether the name filter `patterns` keeps an entry whose base name is `name`.
pub fn name_matches(name: &str, patterns: &Vec<NamePattern>) -> (r: bool)
    ensures
        r == names_admit(sources(patterns@), name@),
{
    if patterns.len() == 0 {
        return true;
    }
    let ghost srcs = sources(patterns@);
    let mut i: usize = 0;
    while i < patterns.len()
        invariant
            0 <= i <= patterns@.len(),
            srcs == sources(patterns@),
            srcs.len() == patterns@.len(),
            forall|j: int| 0 <= j < i ==> !regex_finds(#[trigger] srcs[j], name@),
        decreases patterns@.len() - i,
    {
        if patterns[i].is_match(name) {
            assert(srcs[i as int] == patterns@[i as int]@);
            return true;
        }
        assert(srcs[i as int] == patterns@[i as int]@);
        i = i + 1;
    }
    false
}

/// What a search asks for: the roots in order, the name patterns' texts and
/// the kinds.
pub struct SearchRequest {
    pub paths: Seq<Seq<char>>,
    pub names: Seq<Seq<char>>,
    pub types: Seq<EntryType>,
}

/// Whether a request keeps an entry: both filters admit it.
pub open spec fn admits(req: SearchRequest, e: Entry) -> bool {
    types_admit(req.types, e.kind) && names_admit(req.names, e.name@)
}

/// A validated search request. It always has at least one root.
pub struct Args {
    paths: Vec<String>,
    names: Vec<NamePattern>,
    types: Vec<EntryType>,
}

impl Args {
    #[verifier::type_invariant]
    spec fn has_root(&self) -> bool {
        self.paths@.len() > 0
    }
}

impl View for Args {
    type V = SearchRequest;

    closed spec fn view(&self) -> SearchRequest {
        SearchRequest {
            paths: self.paths@.map_values(|p: String| p@),
            names: sources(self.names@),
            types: self.types@,
        }
    }
}

impl Args {
    /// Builds a request; with no root given, the search starts at `.`.
    pub fn new(paths: Vec<String>, names: Vec<NamePattern>, types: Vec<EntryType>) -> (r: Args)
        ensures
            paths@.len() > 0 ==> r@.paths == paths@.map_values(|p: String| p@),
            paths@.len() == 0 ==> r@.paths == seq![seq!['.']],
            r@.names == sources(names@),
            r@.types == types@,
    {
        let paths = if paths.len() == 0 {
            let mut v: Vec<String> = Vec::new();
            let dot = String::from_str(".");
            proof {
                reveal_strlit(".");
                assert(dot@ =~= seq!['.']);
            }
            v.push(dot);
            proof {
                assert(v@.map_values(|p: String| p@) =~= seq![seq!['.']]);
            }
            v
        } else {
            paths
        };
        Args { paths, names, types }
    }

    /// The roots, in the order they are searched.
    pub fn paths(&self) -> (r: &Vec<String>)
        ensures
            r@.map_values(|p: String| p@) == self@.paths,
            r@.len() > 0,
    {
        proof {
            use_type_invariant(self);
        }
        &self.paths
    }

    /// The name patterns.
    pub fn names(&self) -> (r: &Vec<NamePattern>)
        ensures
            sources(r@) == self@.names,
    {
        &self.names
    }

    /// The kinds asked for.
    pub fn types(&self) -> (r: &Vec<EntryType>)
        ensures
            r@ == self@.types,
    {
        &self.types
    }

    /// Whether the entry passes both filters.
    pub fn accepts(&self, e: &Entry) -> (r: bool)
        ensures
            r == admits(self@, *e),
    {
        type_matches(e.kind, &self.types) && name_matches(e.name.as_str(), &self.names)
    }
}

} // verus!
