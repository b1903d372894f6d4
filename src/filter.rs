//! The search filter: which bindings a query selects, in store order.

use vstd::prelude::*;
use crate::keybind::Keybind;
use crate::text::{contains, is_infix, lower_of, lowercase};

verus! {

/// A binding matches a query when the query is empty, or when its lowercase
/// form occurs in the lowercase name or the lowercase description.
pub open spec fn keybind_matches(query: Seq<char>, k: Keybind) -> bool {
    query.len() == 0 || is_infix(lower_of(query), lower_of(k.name@)) || is_infix(
        lower_of(query),
        lower_of(k.desc@),
    )
}

/// The bindings of `items` that match `query`, in their order in `items`.
pub open spec fn matching(items: Seq<Keybind>, query: Seq<char>) -> Seq<Keybind>
    decreases items.len(),
{
    if items.len() == 0 {
        Seq::empty()
    } else {
        let rest = matching(items.drop_last(), query);
        if keybind_matches(query, items.last()) {
            rest.push(items.last())
        } else {
            rest
        }
    }
}

/// `idx` picks out `a` from `b`: `a[i]` is `b[idx[i]]`, at strictly rising
/// positions.
pub open spec fn embeds(idx: Seq<int>, a: Seq<Keybind>, b: Seq<Keybind>) -> bool {
    &&& idx.len() == a.len()
    &&& forall|i: int| 0 <= i < idx.len() ==> 0 <= #[trigger] idx[i] < b.len() && b[idx[i]] == a[i]
    &&& forall|i: int, j: int| 0 <= i < j < idx.len() ==> #[trigger] idx[i] < #[trigger] idx[j]
}

/// `a` is `b` with some elements left out, the others kept in order.
pub open spec fn is_subsequence(a: Seq<Keybind>, b: Seq<Keybind>) -> bool {
    exists|idx: Seq<int>| embeds(idx, a, b)
}

/// Whether a binding matches, given the lowercase forms of the query, of its
/// name and of its description.
pub fn matches_folded(folded_query: &str, folded_name: &str, folded_desc: &str) -> (r: bool)
    ensures
        r == (is_infix(folded_query@, folded_name@) || is_infix(folded_query@, folded_desc@)),
{
    contains(folded_name, folded_query) || contains(folded_desc, folded_query)
}

/// Whether `k` matches the query whose lowercase form is `folded_query`.
pub fn matches_query(k: &Keybind, query: &str, folded_query: &str) -> (r: bool)
    requires
        folded_query@ == lower_of(query@),
    ensures
        r == keybind_matches(query@, *k),
{
    if query.is_empty() {
        return true;
    }
    let name = lowercase(k.name.as_str());
    let desc = lowercase(k.desc.as_str());
    matches_folded(folded_query, name.as_str(), desc.as_str())
}

/// The bindings of `items` that match `query`, in store order.
pub fn filter_keybinds(items: &Vec<Keybind>, query: &str) -> (r: Vec<Keybind>)
    ensures
        r@ == matching(items@, query@),
{
    let folded = lowercase(query);
    let mut r: Vec<Keybind> = Vec::new();
    let mut i: usize = 0;
    while i < items.len()
        invariant
            i <= items@.len(),
            folded@ == lower_of(query@),
            r@ == matching(items@.subrange(0, i as int), query@),
        decreases items@.len() - i,
    {
        let item = &items[i];
        assert(items@.subrange(0, i + 1).drop_last() =~= items@.subrange(0, i as int));
        if matches_query(item, query, folded.as_str()) {
            r.push(item.copy());
        }
        i = i + 1;
    }
    assert(items@.subrange(0, items@.len() as int) =~= items@);
    r
}

/// The filtered bindings are a subsequence of the store: every one of them
/// comes from the store, and their relative order is the store's.
pub proof fn lemma_filter_is_subsequence(items: Seq<Keybind>, query: Seq<char>)
    ensures
        is_subsequence(matching(items, query), items),
{
    let idx = filter_positions(items, query);
    assert(embeds(idx, matching(items, query), items));
}

/// The positions in `items` of the bindings that match `query`.
proof fn filter_positions(items: Seq<Keybind>, query: Seq<char>) -> (idx: Seq<int>)
    ensures
        embeds(idx, matching(items, query), items),
    decreases items.len(),
{
    if items.len() == 0 {
        Seq::empty()
    } else {
        let prev = filter_positions(items.drop_last(), query);
        let rest = matching(items.drop_last(), query);
        if keybind_matches(query, items.last()) {
            let idx = prev.push(items.len() - 1);
            assert forall|i: int| 0 <= i < idx.len() implies 0 <= #[trigger] idx[i] < items.len()
                && items[idx[i]] == rest.push(items.last())[i] by {
                if i < prev.len() {
                    assert(idx[i] == prev[i]);
                }
            }
            assert forall|i: int, j: int| 0 <= i < j < idx.len() implies #[trigger] idx[i]
                < #[trigger] idx[j] by {
                if j < prev.len() {
                    assert(idx[i] == prev[i] && idx[j] == prev[j]);
                } else {
                    assert(idx[i] == prev[i]);
                }
            }
            idx
        } else {
            prev
        }
    }
}

/// Letter case does not change which bindings a query selects: queries with
/// the same lowercase form select the same bindings, and bindings whose name
/// and description have the same lowercase forms are selected alike.
pub proof fn lemma_case_insensitive(q1: Seq<char>, q2: Seq<char>, k1: Keybind, k2: Keybind)
    requires
        q1.len() == 0 <==> q2.len() == 0,
        lower_of(q1) == lower_of(q2),
        lower_of(k1.name@) == lower_of(k2.name@),
        lower_of(k1.desc@) == lower_of(k2.desc@),
    ensures
        keybind_matches(q1, k1) == keybind_matches(q2, k2),
{
}

/// Queries with the same lowercase form filter a store alike.
pub proof fn lemma_filter_case_insensitive(items: Seq<Keybind>, q1: Seq<char>, q2: Seq<char>)
    requires
        q1.len() == 0 <==> q2.len() == 0,
        lower_of(q1) == lower_of(q2),
    ensures
        matching(items, q1) == matching(items, q2),
    decreases items.len(),
{
    if items.len() > 0 {
        lemma_filter_case_insensitive(items.drop_last(), q1, q2);
        lemma_case_insensitive(q1, q2, items.last(), items.last());
    }
}

/// The empty query selects the whole store, in order.
pub proof fn lemma_empty_query_keeps_all(items: Seq<Keybind>)
    ensures
        matching(items, Seq::<char>::empty()) == items,
    decreases items.len(),
{
    if items.len() > 0 {
        lemma_empty_query_keeps_all(items.drop_last());
        assert(items.drop_last().push(items.last()) =~= items);
    }
}

} // verus!
