//! Properties of the tree operations that relate several calls, stated over
//! the model that the operations' contracts use.

use vstd::prelude::*;
use crate::lists::{lemma_preorder_in_nodes, lemma_without_first_of_push};
use crate::paths::lemma_walk_iff_paths_simple;
use crate::taffy_api::{children_after_set, parents_after_set, preorder, preorder_list, without_first};
use crate::style::{
    lemma_decoded_style_has_code, lemma_style_round_trip, spec_style_codes_valid, spec_style_from_c,
    spec_style_to_c, CTaffyStyle,
};
use crate::taffy_api::{dirty_chain, TaffyStyle};
use crate::tree::TreeModel;
use taffy::tree::Layout;

verus! {

/// A node created as a leaf is live, has no children and no parent, and every
/// node that was live before still is.
pub proof fn law_new_leaf_is_detached(before: TreeModel, after: TreeModel, id: u64)
    requires
        before.well_formed(),
        !before.nodes.contains(id),
        after.nodes == before.nodes.insert(id),
        after.children == before.children.insert(id, Seq::empty()),
        after.parents == before.parents,
    ensures
        after.nodes.contains(id),
        after.children[id].len() == 0,
        !after.parents.contains_key(id),
        before.nodes.subset_of(after.nodes),
{
}

/// After `add_child(parent, child)`, `child`'s parent is `parent`, `child` is
/// the last of `parent`'s children, and `parent` has one child more.
pub proof fn law_add_child_links(before: TreeModel, after: TreeModel, parent: u64, child: u64)
    requires
        after.children == before.children.insert(parent, before.children[parent].push(child)),
        after.parents == before.parents.insert(child, parent),
    ensures
        after.parents.contains_key(child) && after.parents[child] == parent,
        after.children[parent].len() == before.children[parent].len() + 1,
        after.children[parent].last() == child,
{
}

/// After `remove_child_at_index(parent, index)` the child that was there has
/// no parent, `parent` has one child fewer, and the children after it moved
/// up by one.
pub proof fn law_remove_child_at_index_detaches(before: TreeModel, after: TreeModel, parent: u64, index: int)
    requires
        0 <= index < before.children[parent].len(),
        after.children == before.children.insert(parent, before.children[parent].remove(index)),
        after.parents == before.parents.remove(before.children[parent][index]),
    ensures
        !after.parents.contains_key(before.children[parent][index]),
        after.children[parent].len() == before.children[parent].len() - 1,
        forall|j: int| index <= j < after.children[parent].len()
            ==> after.children[parent][j] == before.children[parent][j + 1],
{
}

/// A context value written to a node is the value read back from it.
pub proof fn law_context_read_after_write(before: TreeModel, after: TreeModel, node: u64, context: usize)
    requires
        after.contexts == before.contexts.insert(node, context),
    ensures
        after.contexts.contains_key(node),
        after.contexts[node] == context,
{
}

/// The depth-first dump of a sound subtree starts with its root.
pub proof fn law_subtree_starts_at_root(m: TreeModel, root: u64)
    requires
        m.well_formed(),
        m.subtree_sound(root),
    ensures
        m.subtree(root).len() >= 1,
        m.subtree(root)[0] == root,
{
    lemma_walk_iff_paths_simple(m.children, m.nodes, root);
    let rest = preorder_list(m.children, m.nodes, m.children[root], (m.nodes.len() - 1) as nat)->Some_0;
    assert(m.subtree(root) == seq![root].add(rest));
}

/// The subtree of a live node without children is the node alone.
pub proof fn law_leaf_subtree(m: TreeModel, root: u64)
    requires
        m.well_formed(),
        m.nodes.contains(root),
        m.children[root].len() == 0,
    ensures
        m.subtree_sound(root),
        m.subtree(root) == seq![root],
{
    lemma_walk_iff_paths_simple(m.children, m.nodes, root);
    assert(m.nodes.len() == m.nodes.remove(root).len() + 1);
    let fuel = m.nodes.len();
    assert(preorder_list(m.children, m.nodes, m.children[root], (fuel - 1) as nat) == Some(Seq::<u64>::empty()));
    assert(seq![root].add(Seq::<u64>::empty()) =~= seq![root]);
}

/// `remove_child(parent, child)` right after `add_child(parent, child)` undoes
/// it: when `child` was not on `parent`'s list and had no parent, the child
/// lists and parent links are what they were before the two calls.
pub proof fn law_remove_child_undoes_add_child(
    m0: TreeModel,
    m1: TreeModel,
    m2: TreeModel,
    parent: u64,
    child: u64,
)
    requires
        m0.well_formed(),
        m0.nodes.contains(parent),
        !m0.children[parent].contains(child),
        !m0.parents.contains_key(child),
        m1.children == m0.children.insert(parent, m0.children[parent].push(child)),
        m1.parents == m0.parents.insert(child, parent),
        m2.children == m1.children.insert(parent, without_first(m1.children[parent], child)),
        m2.parents == m1.parents.remove(child),
    ensures
        m2.children == m0.children,
        m2.parents == m0.parents,
{
    lemma_without_first_of_push(m0.children[parent], child);
    assert(m2.children =~= m0.children);
    assert(m2.parents =~= m0.parents);
}

/// `remove_child_at_index(parent, index)` right after
/// `insert_child_at_index(parent, index, child)` takes `child` out again and
/// gives the child lists back; when `child` had no parent before, the parent
/// links are back too.
pub proof fn law_remove_child_at_index_undoes_insert(
    m0: TreeModel,
    m1: TreeModel,
    m2: TreeModel,
    parent: u64,
    index: int,
    child: u64,
)
    requires
        m0.well_formed(),
        m0.nodes.contains(parent),
        0 <= index <= m0.children[parent].len(),
        m1.children == m0.children.insert(parent, m0.children[parent].insert(index, child)),
        m1.parents == m0.parents.insert(child, parent),
        m2.children == m1.children.insert(parent, m1.children[parent].remove(index)),
        m2.parents == m1.parents.remove(m1.children[parent][index]),
    ensures
        m1.children[parent][index] == child,
        m2.children == m0.children,
        !m0.parents.contains_key(child) ==> m2.parents == m0.parents,
{
    assert(m0.children[parent].insert(index, child).remove(index) =~= m0.children[parent]);
    assert(m2.children =~= m0.children);
    if !m0.parents.contains_key(child) {
        assert(m2.parents =~= m0.parents);
    }
}

/// After `set_children(parent, list)`, `parent`'s children are `list`, every
/// node of `list` has `parent` as its parent, and a node of the old list that
/// `list` does not name has no parent.
pub proof fn law_set_children_links(m0: TreeModel, m1: TreeModel, parent: u64, list: Seq<u64>)
    requires
        m1.children.contains_key(parent),
        forall|p: u64| #[trigger] m1.children.contains_key(p)
            ==> m1.children[p] == children_after_set(m0.children, m0.parents, parent, list, p),
        m1.parents == parents_after_set(m0.children, m0.parents, parent, list),
    ensures
        m1.children[parent] == list,
        forall|c: u64| #[trigger] list.contains(c) ==> m1.parents.contains_key(c) && m1.parents[c] == parent,
        forall|c: u64| #[trigger] m0.children[parent].contains(c) && !list.contains(c)
            ==> !m1.parents.contains_key(c),
{
    assert forall|c: u64| #[trigger] m0.children[parent].contains(c) && !list.contains(c)
        implies !m1.parents.contains_key(c) by {
        assert(m0.children[parent].to_set().contains(c));
    }
}

/// A removed node is gone from the tree: it has no child list and no parent,
/// and no live node has it as its parent.
pub proof fn law_removed_node_is_unlinked(m0: TreeModel, m1: TreeModel, node: u64)
    requires
        m1.well_formed(),
        m1.nodes == m0.nodes.remove(node),
    ensures
        !m1.nodes.contains(node),
        !m1.children.contains_key(node),
        !m1.parents.contains_key(node),
        forall|c: u64| #[trigger] m1.parents.contains_key(c) ==> m1.parents[c] != node,
{
}

/// Every node of a sound subtree is live, so each one can be asked for its
/// child count and layout.
pub proof fn law_subtree_nodes_live(m: TreeModel, root: u64)
    requires
        m.well_formed(),
        m.subtree_sound(root),
    ensures
        forall|i: int| 0 <= i < m.subtree(root).len() ==> m.nodes.contains(#[trigger] m.subtree(root)[i]),
{
    lemma_walk_iff_paths_simple(m.children, m.nodes, root);
    lemma_preorder_in_nodes(m.children, m.nodes, root, m.nodes.len());
}

/// In a well-formed tree, the subtree under `root` is sound (no path from
/// `root` meets a stale id or a node twice) exactly when the depth-first walk
/// from `root`, allowed one step per node, comes back; a subtree the walk
/// refuses is one taffy's layout pass could not finish.
pub proof fn law_subtree_sound_iff_walk_comes_back(m: TreeModel, root: u64)
    requires
        m.well_formed(),
    ensures
        m.subtree_sound(root) <==> preorder(m.children, m.nodes, root, m.nodes.len()) is Some,
{
    lemma_walk_iff_paths_simple(m.children, m.nodes, root);
}
/// A style decoded from a C style is stable: the C form that `style_to_c`
/// writes for it has valid discriminators and decodes to the same style.
pub proof fn law_decoded_style_is_stable(c: CTaffyStyle)
    requires
        spec_style_codes_valid(c),
    ensures
        spec_style_codes_valid(spec_style_to_c(spec_style_from_c(c))),
        spec_style_from_c(spec_style_to_c(spec_style_from_c(c))) == spec_style_from_c(c),
{
    lemma_decoded_style_has_code(c);
    lemma_style_round_trip(spec_style_from_c(c));
}
/// After a layout pass, reading a node's layout gives what the pass computed
/// for it: the rounded result while rounding is on, else the unrounded one.
pub proof fn law_layout_read_after_pass(after: TreeModel, pass: (Map<u64, Layout>, Map<u64, Layout>), node: u64)
    requires
        pass == (after.rounded_layouts, after.unrounded_layouts),
    ensures
        after.layout(node) == (if after.rounding { pass.0[node] } else { pass.1[node] }),
{
}

/// A style written to a node is the style the node then holds, and every
/// other node keeps its style.
pub proof fn law_style_read_after_write(before: TreeModel, after: TreeModel, node: u64, style: TaffyStyle)
    requires
        after.styles == before.styles.insert(node, style),
    ensures
        after.styles.contains_key(node),
        after.styles[node] == style,
        forall|n: u64| n != node && before.styles.contains_key(n) ==> #[trigger] after.styles[n] == before.styles[n],
{
}

/// `mark_dirty(node)` leaves `node` dirty, keeps every dirty node dirty, and,
/// where `node` was clean and has a parent, leaves that parent dirty too.
pub proof fn law_mark_dirty_reaches_parent(before: TreeModel, after: TreeModel, node: u64)
    requires
        before.well_formed(),
        before.nodes.contains(node),
        after.dirty == before.dirty.union(dirty_chain(before.parents, before.dirty, node, before.nodes.len() + 1)),
    ensures
        after.dirty.contains(node),
        before.dirty.subset_of(after.dirty),
        !before.dirty.contains(node) && before.parents.contains_key(node) ==> after.dirty.contains(before.parents[node]),
{
    let fuel = before.nodes.len() + 1;
    assert(before.nodes.len() >= 1) by {
        vstd::set_lib::lemma_len_subset(set![node], before.nodes);
    }
    if !before.dirty.contains(node) && before.parents.contains_key(node) {
        let rest = dirty_chain(before.parents, before.dirty.insert(node), before.parents[node], (fuel - 1) as nat);
        assert(rest.contains(before.parents[node]));
    }
}
/// What one call does to the set of live nodes: creates a node, removes one,
/// clears the tree, or keeps the set as it was (every other call, and every
/// refused one).
pub enum NodeSetStep {
    Created(u64),
    Removed(u64),
    Cleared,
    Kept,
}

/// `after` is the live set that `step` leaves of `before`, as the
/// operations' contracts state it.
pub open spec fn node_set_step(before: Set<u64>, after: Set<u64>, step: NodeSetStep) -> bool {
    match step {
        NodeSetStep::Created(id) => !before.contains(id) && after == before.insert(id),
        NodeSetStep::Removed(id) => before.contains(id) && after == before.remove(id),
        NodeSetStep::Cleared => after.is_empty(),
        NodeSetStep::Kept => after == before,
    }
}

/// `start`, plus one for each creation and minus one for each removal, counted
/// from the last clear (from which the count starts again at zero).
pub open spec fn count_after(start: int, steps: Seq<NodeSetStep>) -> int
    decreases steps.len(),
{
    if steps.len() == 0 {
        start
    } else {
        let before = count_after(start, steps.drop_last());
        match steps.last() {
            NodeSetStep::Created(_) => before + 1,
            NodeSetStep::Removed(_) => before - 1,
            NodeSetStep::Cleared => 0,
            NodeSetStep::Kept => before,
        }
    }
}

/// Over any run of calls, the number of live nodes (what `total_node_count`
/// reports) is the number at the start plus the nodes created minus the nodes
/// removed, counted from the last clear; attaching and detaching never change
/// it. For a new tree the number at the start is zero.
pub proof fn law_node_count_tallies_calls(sets: Seq<Set<u64>>, steps: Seq<NodeSetStep>)
    requires
        sets.len() == steps.len() + 1,
        sets[0].finite(),
        forall|i: int| 0 <= i < steps.len() ==> node_set_step(sets[i], sets[i + 1], #[trigger] steps[i]),
    ensures
        sets.last().finite(),
        sets.last().len() == count_after(sets[0].len() as int, steps),
    decreases steps.len(),
{
    if steps.len() > 0 {
        let k = steps.len() - 1;
        let shorter = sets.drop_last();
        assert forall|i: int| 0 <= i < steps.drop_last().len()
            implies node_set_step(shorter[i], shorter[i + 1], #[trigger] steps.drop_last()[i]) by {
            assert(steps.drop_last()[i] == steps[i]);
            assert(node_set_step(sets[i], sets[i + 1], steps[i]));
        }
        law_node_count_tallies_calls(shorter, steps.drop_last());
        assert(shorter.last() == sets[k]);
        assert(node_set_step(sets[k], sets[k + 1], steps[k]));
        assert(sets.last() == sets[k + 1]);
        match steps[k] {
            NodeSetStep::Cleared => {
                assert(sets[k + 1] =~= Set::<u64>::empty());
            },
            _ => {},
        }
    }
}
} // verus!
