//! Paths along child lists, and when the depth-first walk of `preorder`
//! comes back: exactly when every path from its start meets only live ids
//! and none of them twice.

use vstd::prelude::*;
use crate::taffy_api::{preorder, preorder_list};

verus! {

/// `b` is on the child list of `a`.
pub open spec fn edge(children: Map<u64, Seq<u64>>, a: u64, b: u64) -> bool {
    children.contains_key(a) && children[a].contains(b)
}

/// `p` is a path along the child lists: it is not empty, and each id after
/// the first is on the child list of the one before it.
pub open spec fn is_path(children: Map<u64, Seq<u64>>, p: Seq<u64>) -> bool {
    &&& p.len() >= 1
    &&& forall|i: int, j: int| 0 <= i && j == i + 1 && j < p.len() ==> #[trigger] edge(children, p[i], p[j])
}

/// Every path from `root` meets only ids of `nodes`, and none of them twice.
pub open spec fn paths_simple(children: Map<u64, Seq<u64>>, nodes: Set<u64>, root: u64) -> bool {
    forall|p: Seq<u64>| #[trigger] is_path(children, p) && p[0] == root ==> {
        &&& p.no_duplicates()
        &&& forall|i: int| 0 <= i < p.len() ==> nodes.contains(#[trigger] p[i])
    }
}

/// `s` written `k` times in a row.
pub open spec fn repeated(s: Seq<u64>, k: nat) -> Seq<u64>
    decreases k,
{
    if k == 0 {
        Seq::empty()
    } else {
        repeated(s, (k - 1) as nat) + s
    }
}

/// A path with one more step at its end is a path.
proof fn lemma_path_push(children: Map<u64, Seq<u64>>, q: Seq<u64>, c: u64)
    requires
        is_path(children, q),
        edge(children, q.last(), c),
    ensures
        is_path(children, q.push(c)),
{
    let r = q.push(c);
    assert forall|i: int, j: int| 0 <= i && j == i + 1 && j < r.len() implies #[trigger] edge(children, r[i], r[j]) by {
        if j < q.len() {
            assert(r[i] == q[i] && r[j] == q[j]);
            assert(edge(children, q[i], q[j]));
        } else {
            assert(r[i] == q.last());
        }
    }
}

/// A path without its first id is a path that starts on the list of that id.
proof fn lemma_path_drop_first(children: Map<u64, Seq<u64>>, p: Seq<u64>)
    requires
        is_path(children, p),
        p.len() >= 2,
    ensures
        is_path(children, p.drop_first()),
        edge(children, p[0], p[1]),
{
    let r = p.drop_first();
    assert(edge(children, p[0], p[1]));
    assert forall|i: int, j: int| 0 <= i && j == i + 1 && j < r.len() implies #[trigger] edge(children, r[i], r[j]) by {
        assert(edge(children, p[i + 1], p[j + 1]));
    }
}

/// A stretch of a path is a path.
proof fn lemma_path_subrange(children: Map<u64, Seq<u64>>, p: Seq<u64>, lo: int, hi: int)
    requires
        is_path(children, p),
        0 <= lo < hi <= p.len(),
    ensures
        is_path(children, p.subrange(lo, hi)),
{
    let r = p.subrange(lo, hi);
    assert forall|i: int, j: int| 0 <= i && j == i + 1 && j < r.len() implies #[trigger] edge(children, r[i], r[j]) by {
        assert(edge(children, p[i + lo], p[j + lo]));
    }
}

/// Two paths joined by a step from the end of the first to the start of the
/// second make a path.
proof fn lemma_path_concat(children: Map<u64, Seq<u64>>, a: Seq<u64>, b: Seq<u64>)
    requires
        is_path(children, a),
        is_path(children, b),
        edge(children, a.last(), b[0]),
    ensures
        is_path(children, a + b),
{
    let r = a + b;
    assert forall|i: int, j: int| 0 <= i && j == i + 1 && j < r.len() implies #[trigger] edge(children, r[i], r[j]) by {
        if j < a.len() {
            assert(edge(children, a[i], a[j]));
        } else if i >= a.len() {
            assert(edge(children, b[i - a.len()], b[j - a.len()]));
        } else {
            assert(r[i] == a.last());
        }
    }
}

/// A path that meets an id twice, at `i` and `j`, goes round the stretch
/// between them again and again: for every `k` there is a path from the same
/// start that is at least `k` ids longer.
proof fn lemma_pumped_path(children: Map<u64, Seq<u64>>, p: Seq<u64>, i: int, j: int, k: nat)
    requires
        is_path(children, p),
        0 <= i < j < p.len(),
        p[i] == p[j],
    ensures
        is_path(children, p.take(j) + repeated(p.subrange(i, j), k)),
        (p.take(j) + repeated(p.subrange(i, j), k)).len() >= j + k,
        (p.take(j) + repeated(p.subrange(i, j), k)).last() == p[j - 1],
    decreases k,
{
    let s = p.subrange(i, j);
    if k == 0 {
        assert(p.take(j) + repeated(s, 0) =~= p.subrange(0, j));
        lemma_path_subrange(children, p, 0, j);
    } else {
        lemma_pumped_path(children, p, i, j, (k - 1) as nat);
        let x = p.take(j) + repeated(s, (k - 1) as nat);
        lemma_path_subrange(children, p, i, j);
        assert(edge(children, p[j - 1], p[j]));
        lemma_path_concat(children, x, s);
        assert(x + s =~= p.take(j) + repeated(s, k));
    }
}

/// An id on a list whose walks come back has a walk that comes back.
proof fn lemma_member_walk_some(children: Map<u64, Seq<u64>>, nodes: Set<u64>, list: Seq<u64>, fuel: nat, c: u64)
    requires
        preorder_list(children, nodes, list, fuel) is Some,
        list.contains(c),
    ensures
        preorder(children, nodes, c, fuel) is Some,
    decreases list.len(),
{
    if list[0] != c {
        let k = choose|k: int| 0 <= k < list.len() && list[k] == c;
        assert(list.drop_first()[k - 1] == c);
        lemma_member_walk_some(children, nodes, list.drop_first(), fuel, c);
    }
}

/// If the walk from `n` with `fuel` comes back, every path from `n` meets
/// only ids of `nodes` and has at most `fuel` ids.
proof fn lemma_walk_bounds_paths(children: Map<u64, Seq<u64>>, nodes: Set<u64>, n: u64, fuel: nat, p: Seq<u64>)
    requires
        preorder(children, nodes, n, fuel) is Some,
        is_path(children, p),
        p[0] == n,
    ensures
        p.len() <= fuel,
        forall|i: int| 0 <= i < p.len() ==> nodes.contains(#[trigger] p[i]),
    decreases fuel,
{
    if p.len() >= 2 {
        lemma_path_drop_first(children, p);
        lemma_member_walk_some(children, nodes, children[n], (fuel - 1) as nat, p[1]);
        lemma_walk_bounds_paths(children, nodes, p[1], (fuel - 1) as nat, p.drop_first());
        assert forall|i: int| 0 <= i < p.len() implies nodes.contains(#[trigger] p[i]) by {
            if i > 0 {
                assert(p[i] == p.drop_first()[i - 1]);
            }
        }
    }
}

/// Where every path from `root` is simple and live, the walk from the end of
/// a path `q` from `root` comes back with fuel enough for the ids `q` has not
/// met yet.
proof fn lemma_simple_paths_walk(children: Map<u64, Seq<u64>>, nodes: Set<u64>, root: u64, q: Seq<u64>, fuel: nat)
    requires
        nodes.finite(),
        children.dom() == nodes,
        paths_simple(children, nodes, root),
        is_path(children, q),
        q[0] == root,
        fuel + q.len() >= nodes.len() + 1,
    ensures
        preorder(children, nodes, q.last(), fuel) is Some,
    decreases fuel, 0nat,
{
    assert(q.no_duplicates());
    assert(q.to_set().subset_of(nodes)) by {
        assert forall|x: u64| q.to_set().contains(x) implies nodes.contains(x) by {
            let i = choose|i: int| 0 <= i < q.len() && q[i] == x;
            assert(nodes.contains(q[i]));
        }
    }
    q.unique_seq_to_set();
    vstd::set_lib::lemma_len_subset(q.to_set(), nodes);
    let n = q.last();
    assert(nodes.contains(q[q.len() - 1]));
    lemma_simple_paths_walk_list(children, nodes, root, q, children[n], (fuel - 1) as nat);
}

/// The list form of `lemma_simple_paths_walk`, for ids on the child list of
/// the end of `q`.
proof fn lemma_simple_paths_walk_list(
    children: Map<u64, Seq<u64>>,
    nodes: Set<u64>,
    root: u64,
    q: Seq<u64>,
    list: Seq<u64>,
    fuel: nat,
)
    requires
        nodes.finite(),
        children.dom() == nodes,
        paths_simple(children, nodes, root),
        is_path(children, q),
        q[0] == root,
        children.contains_key(q.last()),
        forall|c: u64| list.contains(c) ==> #[trigger] children[q.last()].contains(c),
        fuel + q.len() + 1 >= nodes.len() + 1,
    ensures
        preorder_list(children, nodes, list, fuel) is Some,
    decreases fuel, list.len(),
{
    if list.len() > 0 {
        let c = list[0];
        assert(list.contains(c));
        lemma_path_push(children, q, c);
        lemma_simple_paths_walk(children, nodes, root, q.push(c), fuel);
        assert forall|x: u64| list.drop_first().contains(x) implies #[trigger] children[q.last()].contains(x) by {
            let k = choose|k: int| 0 <= k < list.drop_first().len() && list.drop_first()[k] == x;
            assert(list[k + 1] == x);
        }
        lemma_simple_paths_walk_list(children, nodes, root, q, list.drop_first(), fuel);
    }
}

/// Over child lists kept for exactly the finitely many ids of `nodes`, the
/// walk from `root` with as much fuel as there are ids comes back exactly
/// when every path from `root` meets only ids of `nodes`, and none twice.
pub proof fn lemma_walk_iff_paths_simple(children: Map<u64, Seq<u64>>, nodes: Set<u64>, root: u64)
    requires
        nodes.finite(),
        children.dom() == nodes,
    ensures
        preorder(children, nodes, root, nodes.len()) is Some <==> paths_simple(children, nodes, root),
{
    let n = nodes.len();
    if preorder(children, nodes, root, n) is Some {
        assert forall|p: Seq<u64>| #[trigger] is_path(children, p) && p[0] == root implies {
            &&& p.no_duplicates()
            &&& forall|i: int| 0 <= i < p.len() ==> nodes.contains(#[trigger] p[i])
        } by {
            lemma_walk_bounds_paths(children, nodes, root, n, p);
            if !p.no_duplicates() {
                let (i, j) = choose|i: int, j: int| 0 <= i < p.len() && 0 <= j < p.len() && i != j && p[i] == p[j];
                let (lo, hi) = if i < j { (i, j) } else { (j, i) };
                lemma_pumped_path(children, p, lo, hi, (n + 1) as nat);
                let long = p.take(hi) + repeated(p.subrange(lo, hi), (n + 1) as nat);
                assert(long[0] == p[0]);
                lemma_walk_bounds_paths(children, nodes, root, n, long);
            }
        }
    }
    if paths_simple(children, nodes, root) {
        let q = seq![root];
        assert(is_path(children, q));
        lemma_simple_paths_walk(children, nodes, root, q, n);
    }
}

} // verus!
