//! Running a request over the items that the walk of each root yielded.

use vstd::prelude::*;
use crate::entry::WalkItem;
use crate::filter::{admits, Args, SearchRequest};

verus! {

/// The displayed paths of the entries that `req` keeps, in walk order.
pub open spec fn kept(req: SearchRequest, items: Seq<WalkItem>) -> Seq<Seq<char>>
    decreases items.len(),
{
    if items.len() == 0 {
        seq![]
    } else {
        let rest = kept(req, items.drop_last());
        match items.last() {
            WalkItem::Found(e) => if admits(req, e) {
                rest.push(e.path@)
            } else {
                rest
            },
            WalkItem::Failed(_) => rest,
        }
    }
}

/// The messages of the errors among the items, in walk order.
pub open spec fn failures(items: Seq<WalkItem>) -> Seq<Seq<char>>
    decreases items.len(),
{
    if items.len() == 0 {
        seq![]
    } else {
        let rest = failures(items.drop_last());
        match items.last() {
            WalkItem::Found(_) => rest,
            WalkItem::Failed(m) => rest.push(m@),
        }
    }
}

/// Lines of text, each one ended by a newline.
pub open spec fn block(lines: Seq<Seq<char>>) -> Seq<char>
    decreases lines.len(),
{
    if lines.len() == 0 {
        seq![]
    } else {
        block(lines.drop_last()) + lines.last() + seq!['\n']
    }
}

/// The whole output of a search: the block of each root's matches, root
/// after root, in the order the roots were given.
pub open spec fn output_of(req: SearchRequest, walks: Seq<Seq<WalkItem>>) -> Seq<char>
    decreases walks.len(),
{
    if walks.len() == 0 {
        seq![]
    } else {
        output_of(req, walks.drop_last()) + block(kept(req, walks.last()))
    }
}

/// All the diagnostics of a search, root after root.
pub open spec fn failures_of(walks: Seq<Seq<WalkItem>>) -> Seq<Seq<char>>
    decreases walks.len(),
{
    if walks.len() == 0 {
        seq![]
    } else {
        failures_of(walks.drop_last()) + failures(walks.last())
    }
}

/// The texts of a list of strings.
pub open spec fn texts(v: Seq<String>) -> Seq<Seq<char>> {
    v.map_values(|s: String| s@)
}

/// The walks of all roots, as sequences.
pub open spec fn walks_view(walks: Seq<Vec<WalkItem>>) -> Seq<Seq<WalkItem>> {
    walks.map_values(|w: Vec<WalkItem>| w@)
}

/// A search is repeatable: the same request over the same walks gives the
/// same output and the same diagnostics, in the same order.
pub proof fn lemma_search_repeatable(
    req1: SearchRequest,
    req2: SearchRequest,
    walks1: Seq<Seq<WalkItem>>,
    walks2: Seq<Seq<WalkItem>>,
)
    requires
        req1 == req2,
        walks1 == walks2,
    ensures
        output_of(req1, walks1) == output_of(req2, walks2),
        failures_of(walks1) == failures_of(walks2),
{
}

/// Roots are answered in order: the output of a search is the output for
/// its first `k` roots, followed by the output for the rest.
pub proof fn lemma_roots_in_order(req: SearchRequest, walks: Seq<Seq<WalkItem>>, k: int)
    requires
        0 <= k <= walks.len(),
    ensures
        output_of(req, walks) == output_of(req, walks.take(k)) + output_of(req, walks.skip(k)),
    decreases walks.len(),
{
    if k == walks.len() {
        assert(walks.take(k) =~= walks);
        assert(walks.skip(k) =~= Seq::<Seq<WalkItem>>::empty());
        assert(output_of(req, walks) + seq![] =~= output_of(req, walks));
    } else {
        let front = walks.drop_last();
        lemma_roots_in_order(req, front, k);
        assert(front.take(k) =~= walks.take(k));
        assert(walks.skip(k).drop_last() =~= front.skip(k));
        assert(walks.skip(k).last() == walks.last());
        let a = output_of(req, walks.take(k));
        let b = output_of(req, front.skip(k));
        let c = block(kept(req, walks.last()));
        assert(a + b + c =~= a + (b + c));
    }
}

/// What a search produced: the text for the output sink and the messages
/// for the diagnostic channel.
pub struct Report {
    pub output: String,
    pub diagnostics: Vec<String>,
}

/// Filters the items of one root's walk: the kept entries' paths become the
/// root's output block, one per line, and each error becomes a diagnostic.
pub fn search_root(args: &Args, items: &Vec<WalkItem>) -> (r: Report)
    ensures
        r.output@ == block(kept(args@, items@)),
        texts(r.diagnostics@) == failures(items@),
{
    let mut output = String::new();
    let mut diagnostics: Vec<String> = Vec::new();
    let mut i: usize = 0;
    while i < items.len()
        invariant
            0 <= i <= items@.len(),
            output@ == block(kept(args@, items@.take(i as int))),
            texts(diagnostics@) == failures(items@.take(i as int)),
        decreases items@.len() - i,
    {
        let ghost before = items@.take(i as int);
        let ghost lines = kept(args@, before);
        assert(items@.take(i + 1).drop_last() =~= before);
        assert(items@.take(i + 1).last() == items@[i as int]);
        match &items[i] {
            WalkItem::Found(e) => {
                if args.accepts(e) {
                    output.append(e.path.as_str());
                    output.append("\n");
                    proof {
                        reveal_strlit("\n");
                        let now = lines.push(e.path@);
                        assert(now.drop_last() =~= lines);
                        assert(output@ =~= block(now));
                    }
                }
            },
            WalkItem::Failed(m) => {
                let ghost old_d = diagnostics@;
                diagnostics.push(m.clone());
                assert(texts(diagnostics@) =~= texts(old_d).push(m@));
            },
        }
        i = i + 1;
    }
    assert(items@.take(items@.len() as int) =~= items@);
    Report { output, diagnostics }
}

/// Runs a request over the walks of its roots, taken in order: the output
/// holds every block of a root before any of the next root's.
pub fn search(args: &Args, walks: &Vec<Vec<WalkItem>>) -> (r: Report)
    ensures
        r.output@ == output_of(args@, walks_view(walks@)),
        texts(r.diagnostics@) == failures_of(walks_view(walks@)),
{
    let ghost all = walks_view(walks@);
    let mut output = String::new();
    let mut diagnostics: Vec<String> = Vec::new();
    let mut i: usize = 0;
    while i < walks.len()
        invariant
            0 <= i <= walks@.len(),
            all == walks_view(walks@),
            all.len() == walks@.len(),
            output@ == output_of(args@, all.take(i as int)),
            texts(diagnostics@) == failures_of(all.take(i as int)),
        decreases walks@.len() - i,
    {
        assert(all.take(i + 1).drop_last() =~= all.take(i as int));
        assert(all.take(i + 1).last() == walks@[i as int]@);
        let part = search_root(args, &walks[i]);
        output.append(part.output.as_str());
        let ghost old_d = diagnostics@;
        let mut more = part.diagnostics;
        diagnostics.append(&mut more);
        assert(texts(diagnostics@) =~= texts(old_d) + texts(part.diagnostics@));
        i = i + 1;
    }
    assert(all.take(walks@.len() as int) =~= all);
    Report { output, diagnostics }
}

} // verus!
