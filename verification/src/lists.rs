//! Facts about the list operations in which taffy's effects on child lists
//! are stated, and an executable count of occurrences.

use vstd::prelude::*;
use crate::taffy_api::{occurrences, preorder, preorder_list, without_all, without_each_first, without_first};

verus! {

/// Dropping every `y` keeps every other element.
pub proof fn lemma_without_all_keeps(s: Seq<u64>, x: u64, y: u64)
    requires
        s.contains(x),
        x != y,
    ensures
        without_all(s, y).contains(x),
    decreases s.len(),
{
    if s[0] == x {
        assert(without_all(s, y)[0] == x);
    } else {
        let i = choose|i: int| 0 <= i < s.len() && s[i] == x;
        assert(s.drop_first()[i - 1] == x);
        lemma_without_all_keeps(s.drop_first(), x, y);
        let r = without_all(s.drop_first(), y);
        let j = choose|j: int| 0 <= j < r.len() && r[j] == x;
        if s[0] == y {
            assert(without_all(s, y) == r);
        } else {
            assert(without_all(s, y)[j + 1] == x);
        }
    }
}

/// Dropping the first `y` keeps every other element.
pub proof fn lemma_without_first_keeps(s: Seq<u64>, x: u64, y: u64)
    requires
        s.contains(x),
        x != y,
    ensures
        without_first(s, y).contains(x),
    decreases s.len(),
{
    if s[0] == x {
        assert(without_first(s, y)[0] == x);
    } else {
        let i = choose|i: int| 0 <= i < s.len() && s[i] == x;
        assert(s.drop_first()[i - 1] == x);
        if s[0] == y {
            assert(without_first(s, y) == s.drop_first());
        } else {
            lemma_without_first_keeps(s.drop_first(), x, y);
            let r = without_first(s.drop_first(), y);
            let j = choose|j: int| 0 <= j < r.len() && r[j] == x;
            assert(without_first(s, y)[j + 1] == x);
        }
    }
}

/// Dropping the first occurrence of each of `ys` keeps an element not in `ys`.
pub proof fn lemma_without_each_first_keeps(s: Seq<u64>, ys: Seq<u64>, x: u64)
    requires
        s.contains(x),
        !ys.contains(x),
    ensures
        without_each_first(s, ys).contains(x),
    decreases ys.len(),
{
    if ys.len() > 0 {
        lemma_without_first_keeps(s, x, ys[0]);
        assert(!ys.drop_first().contains(x)) by {
            if ys.drop_first().contains(x) {
                let i = choose|i: int| 0 <= i < ys.drop_first().len() && ys.drop_first()[i] == x;
                assert(ys[i + 1] == x);
            }
        }
        lemma_without_each_first_keeps(without_first(s, ys[0]), ys.drop_first(), x);
    }
}

/// Taking the first `x` off a list that did not hold `x`, with `x` appended,
/// gives the list back.
pub proof fn lemma_without_first_of_push(s: Seq<u64>, x: u64)
    requires
        !s.contains(x),
    ensures
        without_first(s.push(x), x) == s,
    decreases s.len(),
{
    if s.len() == 0 {
        assert(s.push(x).drop_first() =~= s);
    } else {
        assert(s[0] != x);
        assert(s.push(x).drop_first() =~= s.drop_first().push(x));
        assert(!s.drop_first().contains(x)) by {
            if s.drop_first().contains(x) {
                let i = choose|i: int| 0 <= i < s.drop_first().len() && s.drop_first()[i] == x;
                assert(s[i + 1] == x);
            }
        }
        lemma_without_first_of_push(s.drop_first(), x);
        assert(seq![s[0]].add(s.drop_first()) =~= s);
    }
}

/// An element that occurs at least once is contained.
pub proof fn lemma_occurs_contains(s: Seq<u64>, x: u64)
    requires
        occurrences(s, x) > 0,
    ensures
        s.contains(x),
    decreases s.len(),
{
    if s.last() == x {
        assert(s[s.len() - 1] == x);
    } else {
        lemma_occurs_contains(s.drop_last(), x);
        let i = choose|i: int| 0 <= i < s.drop_last().len() && s.drop_last()[i] == x;
        assert(s[i] == x);
    }
}

/// The number of times `x` occurs in `v`.
pub fn count_occurrences(v: &Vec<u64>, x: u64) -> (n: usize)
    ensures
        n == occurrences(v@, x),
        n <= v.len(),
{
    let mut n: usize = 0;
    let mut i: usize = 0;
    while i < v.len()
        invariant
            i <= v.len(),
            n == occurrences(v@.take(i as int), x),
            n <= i,
        decreases v.len() - i,
    {
        assert(v@.take(i + 1).drop_last() =~= v@.take(i as int));
        if v[i] == x {
            n = n + 1;
        }
        i = i + 1;
    }
    assert(v@.take(v.len() as int) =~= v@);
    n
}


/// Every id that a successful walk meets is in `nodes`.
pub proof fn lemma_preorder_in_nodes(children: Map<u64, Seq<u64>>, nodes: Set<u64>, node: u64, fuel: nat)
    ensures
        preorder(children, nodes, node, fuel) matches Some(s) ==> forall|i: int| 0 <= i < s.len() ==> nodes.contains(#[trigger] s[i]),
    decreases fuel, 0nat,
{
    if fuel > 0 && nodes.contains(node) && children.contains_key(node) {
        lemma_preorder_list_in_nodes(children, nodes, children[node], (fuel - 1) as nat);
        if let Some(s) = preorder(children, nodes, node, fuel) {
            let rest = preorder_list(children, nodes, children[node], (fuel - 1) as nat)->Some_0;
            assert forall|i: int| 0 <= i < s.len() implies nodes.contains(#[trigger] s[i]) by {
                if i > 0 {
                    assert(s[i] == rest[i - 1]);
                }
            }
        }
    }
}

/// Every id that successful walks from a list meet is in `nodes`.
pub proof fn lemma_preorder_list_in_nodes(children: Map<u64, Seq<u64>>, nodes: Set<u64>, list: Seq<u64>, fuel: nat)
    ensures
        preorder_list(children, nodes, list, fuel) matches Some(s) ==> forall|i: int| 0 <= i < s.len() ==> nodes.contains(#[trigger] s[i]),
    decreases fuel, list.len(),
{
    if list.len() > 0 {
        lemma_preorder_in_nodes(children, nodes, list[0], fuel);
        lemma_preorder_list_in_nodes(children, nodes, list.drop_first(), fuel);
        if let Some(s) = preorder_list(children, nodes, list, fuel) {
            let first = preorder(children, nodes, list[0], fuel)->Some_0;
            let rest = preorder_list(children, nodes, list.drop_first(), fuel)->Some_0;
            assert forall|i: int| 0 <= i < s.len() implies nodes.contains(#[trigger] s[i]) by {
                if i < first.len() {
                    assert(s[i] == first[i]);
                } else {
                    assert(s[i] == rest[i - first.len()]);
                }
            }
        }
    }
}

} // verus!
