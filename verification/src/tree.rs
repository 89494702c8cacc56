//! The state behind one C-side tree handle, and every operation that the C
//! interface offers on it, decided down to the status code it reports.
//!
//! Taffy panics when it is handed an id that is not one of its nodes, so the
//! state keeps its own set of live ids beside the tree and checks every node
//! argument against it before the call; an unknown id is reported as
//! `TAFFY_ERR_INVALID_NODE`. The set changes only when a node is created,
//! removed, or the tree is cleared: detaching a node from its parent keeps
//! it alive.
//!
//! A few other inputs make taffy panic although every id in them is live
//! (a child list that names a removed node, `remove_child` with a node that
//! is not a child, a cycle of child links under a node being laid out). The
//! operations check for these too, change nothing, and report
//! `TAFFY_ERR_UNKNOWN`, the code the C interface gives any failure it did not
//! foresee.

use vstd::prelude::*;
use std::collections::HashSet;
use crate::codes::{
    TAFFY_ERR_BUFFER_TOO_SMALL, TAFFY_ERR_INDEX_OUT_OF_BOUNDS, TAFFY_ERR_INVALID_NODE, TAFFY_ERR_NO_PARENT,
    TAFFY_ERR_UNKNOWN, TAFFY_OK,
};
use crate::style::ConvertError;
use crate::taffy_api::{
    taffy_children, taffy_contexts, taffy_dirty, taffy_nodes, taffy_parents, taffy_rounding, taffy_styles, taffy_rounded_layouts, taffy_unrounded_layouts, taffy_layout_pass, taffy_measured_layout_pass, dirty_chain, tree_add_child, tree_child_at_index,
    tree_child_count, tree_children, tree_clear, tree_dirty, tree_disable_rounding, tree_enable_rounding,
    tree_get_node_context, tree_layout, tree_mark_dirty, tree_new, tree_new_leaf, tree_new_with_children,
    tree_parent, tree_set_node_context, tree_set_style, tree_total_node_count, tree_with_capacity, TaffyStyle,
    TreeError, parents_closed, parents_listed, tree_remove, tree_insert_child_at_index, tree_remove_child,
    tree_remove_child_at_index, tree_replace_child_at_index, children_after_remove, parents_after_remove,
    children_detached, without_first, tree_set_children, children_after_set, parents_after_set,
    repeats_covered, occurrences, moved_from, preorder, preorder_list, tree_compute_layout,
    tree_compute_layout_with_measure, StyleRef,
};
use crate::paths::{lemma_walk_iff_paths_simple, paths_simple};
use crate::lists::{
    count_occurrences, lemma_occurs_contains, lemma_without_all_keeps, lemma_without_each_first_keeps,
    lemma_without_first_keeps, lemma_preorder_in_nodes,
};
use taffy::style::AvailableSpace;
use taffy::tree::{Layout, LayoutInput, LayoutOutput, TaffyTree};

verus! {

broadcast use vstd::std_specs::hash::group_hash_axioms;

/// What the operations read and change of a tree.
pub struct TreeModel {
    /// The ids of the live nodes.
    pub nodes: Set<u64>,
    /// The ordered child list of each live node.
    pub children: Map<u64, Seq<u64>>,
    /// The parent link of each node that has one.
    pub parents: Map<u64, u64>,
    /// The context value of each node that has one.
    pub contexts: Map<u64, usize>,
    /// The nodes whose layout is marked as needing to be computed again.
    pub dirty: Set<u64>,
    /// Whether the layouts handed out are rounded to whole pixels.
    pub rounding: bool,
    /// The style of each node.
    pub styles: Map<u64, TaffyStyle>,
    /// The rounded layout stored for each node.
    pub rounded_layouts: Map<u64, Layout>,
    /// The unrounded layout stored for each node.
    pub unrounded_layouts: Map<u64, Layout>,
}

impl TreeModel {
    /// The invariant that every operation keeps: finitely many nodes, a child
    /// list for exactly the live nodes, parent links only between live nodes,
    /// and every parent link backed by an entry on the parent's list.
    pub open spec fn well_formed(self) -> bool {
        &&& self.nodes.finite()
        &&& self.children.dom() == self.nodes
        &&& forall|c: u64| #[trigger] self.parents.contains_key(c) ==> self.nodes.contains(c)
        &&& forall|c: u64| #[trigger] self.parents.contains_key(c) ==> self.nodes.contains(self.parents[c])
        &&& forall|c: u64| #[trigger] self.parents.contains_key(c)
            ==> self.children[self.parents[c]].contains(c)
    }

    /// Every id of `ids` is a live node.
    pub open spec fn all_live(self, ids: Seq<u64>) -> bool {
        forall|i: int| 0 <= i < ids.len() ==> self.nodes.contains(#[trigger] ids[i])
    }

    /// Every path from `root` along child lists meets only live nodes and no
    /// node twice: the subtree under `root` has no cycle and no stale entry.
    pub open spec fn subtree_sound(self, root: u64) -> bool {
        paths_simple(self.children, self.nodes, root)
    }

    /// The ids of the subtree under `root`, in depth-first pre-order (for a
    /// well-formed model with `subtree_sound(root)`, the walk of `preorder`
    /// with one unit of fuel per node comes back).
    pub open spec fn subtree(self, root: u64) -> Seq<u64> {
        preorder(self.children, self.nodes, root, self.nodes.len())->Some_0
    }

    /// The layout that is handed out for `node`: the rounded one while
    /// rounding is on, else the unrounded one.
    pub open spec fn layout(self, node: u64) -> Layout {
        if self.rounding {
            self.rounded_layouts[node]
        } else {
            self.unrounded_layouts[node]
        }
    }

    /// Every node of `self` outside the subtree under `root` keeps, in
    /// `after`, its dirty flag and both of its stored layouts.
    pub open spec fn outside_subtree_kept(self, after: TreeModel, root: u64) -> bool {
        forall|n: u64| #![trigger after.dirty.contains(n)] #![trigger after.rounded_layouts[n]]
            self.nodes.contains(n) && !self.subtree(root).contains(n) ==> {
                &&& after.dirty.contains(n) == self.dirty.contains(n)
                &&& after.rounded_layouts[n] == self.rounded_layouts[n]
                &&& after.unrounded_layouts[n] == self.unrounded_layouts[n]
            }
    }

    /// The same styles and stored layouts.
    pub open spec fn same_styles_and_layouts(self, other: TreeModel) -> bool {
        &&& self.styles == other.styles
        &&& self.rounded_layouts == other.rounded_layouts
        &&& self.unrounded_layouts == other.unrounded_layouts
    }

    /// The same nodes, child lists, parent links and contexts.
    pub open spec fn same_structure(self, other: TreeModel) -> bool {
        &&& self.nodes == other.nodes
        &&& self.children == other.children
        &&& self.parents == other.parents
        &&& self.contexts == other.contexts
    }
}

/// The invariant of a taffy tree that the operations keep, stated over the
/// names of `taffy_api` (see `TreeModel::well_formed`).
pub open spec fn tree_sound(t: TaffyTree<usize>) -> bool {
    &&& taffy_nodes(t).finite()
    &&& taffy_children(t).dom() == taffy_nodes(t)
    &&& forall|c: u64| #[trigger] taffy_parents(t).contains_key(c) ==> taffy_nodes(t).contains(c)
    &&& parents_closed(t)
    &&& parents_listed(t)
}

/// The state behind a tree handle: taffy's tree and the set of its live ids.
pub struct FfiState {
    tree: TaffyTree<usize>,
    live: HashSet<u64>,
}

impl View for FfiState {
    type V = TreeModel;

    closed spec fn view(&self) -> TreeModel {
        TreeModel {
            nodes: taffy_nodes(self.tree),
            children: taffy_children(self.tree),
            parents: taffy_parents(self.tree),
            contexts: taffy_contexts(self.tree),
            dirty: taffy_dirty(self.tree),
            rounding: taffy_rounding(self.tree),
            styles: taffy_styles(self.tree),
            rounded_layouts: taffy_rounded_layouts(self.tree),
            unrounded_layouts: taffy_unrounded_layouts(self.tree),
        }
    }
}

impl FfiState {
    /// The live-id set is the tree's set of nodes, and the tree is well formed.
    pub closed spec fn wf(&self) -> bool {
        &&& self.live@ == taffy_nodes(self.tree)
        &&& tree_sound(self.tree)
    }

    /// The rounded and unrounded layouts that a layout pass from `root` in the
    /// given available space leaves stored, run on this state's tree.
    pub closed spec fn layout_pass(&self, root: u64, width: AvailableSpace, height: AvailableSpace) -> (Map<u64, Layout>, Map<u64, Layout>) {
        taffy_layout_pass(self.tree, root, width, height)
    }

    /// The rounded and unrounded layouts that a layout pass from `root` with
    /// a measure function leaves stored, run on this state's tree, when the
    /// measure function's answers were `measured`.
    pub closed spec fn measured_layout_pass(
        &self,
        root: u64,
        width: AvailableSpace,
        height: AvailableSpace,
        measured: Seq<LayoutOutput>,
    ) -> (Map<u64, Layout>, Map<u64, Layout>) {
        taffy_measured_layout_pass(self.tree, root, width, height, measured)
    }

    /// A state that keeps its invariant has a well-formed model.
    pub proof fn lemma_wf_model(&self)
        requires
            self.wf(),
        ensures
            self@.well_formed(),
    {
        let m = self@;
        assert forall|c: u64| #[trigger] m.parents.contains_key(c) implies m.nodes.contains(c) by {
            assert(taffy_parents(self.tree).contains_key(c));
        }
        assert forall|c: u64| #[trigger] m.parents.contains_key(c) implies m.nodes.contains(m.parents[c]) by {
            assert(taffy_parents(self.tree).contains_key(c));
        }
        assert forall|c: u64| #[trigger] m.parents.contains_key(c) implies m.children[m.parents[c]].contains(c) by {
            assert(taffy_parents(self.tree).contains_key(c));
        }
    }

    /// A state with an empty tree.
    pub fn new() -> (s: Self)
        ensures
            s.wf(),
            s@.nodes.is_empty(),
            s@.parents.dom().is_empty(),
            s@.contexts.dom().is_empty(),
            s@.dirty.is_empty(),
            s@.rounding,
            s@.styles.dom().is_empty(),
            s@.rounded_layouts.dom().is_empty(),
            s@.unrounded_layouts.dom().is_empty(),
    {
        let s = FfiState { tree: tree_new(), live: HashSet::new() };
        proof {
            assert(s@.children =~= Map::empty());
        }
        s
    }

    /// A state with an empty tree that has room for `capacity` nodes.
    pub fn with_capacity(capacity: usize) -> (s: Self)
        ensures
            s.wf(),
            s@.nodes.is_empty(),
            s@.parents.dom().is_empty(),
            s@.contexts.dom().is_empty(),
            s@.dirty.is_empty(),
            s@.rounding,
            s@.styles.dom().is_empty(),
            s@.rounded_layouts.dom().is_empty(),
            s@.unrounded_layouts.dom().is_empty(),
    {
        let s = FfiState { tree: tree_with_capacity(capacity), live: HashSet::with_capacity(capacity) };
        proof {
            assert(s@.children =~= Map::empty());
        }
        s
    }

    /// Every node of a sound subtree is live.
    proof fn lemma_subtree_live(&self, root: u64, i: int)
        requires
            self.wf(),
            self@.subtree_sound(root),
            0 <= i < self@.subtree(root).len(),
        ensures
            self@.nodes.contains(self@.subtree(root)[i]),
            self@.children.contains_key(self@.subtree(root)[i]),
    {
        self.lemma_sound_walk(root);
        lemma_preorder_in_nodes(self@.children, self@.nodes, root, self@.nodes.len());
    }

    /// For a state that keeps its invariant, a subtree is sound exactly when
    /// the walk from its root with one unit of fuel per node comes back.
    proof fn lemma_sound_walk(&self, root: u64)
        requires
            self.wf(),
        ensures
            self@.subtree_sound(root) <==> preorder(self@.children, self@.nodes, root, self@.nodes.len()) is Some,
    {
        lemma_walk_iff_paths_simple(self@.children, self@.nodes, root);
    }

    /// Whether `node` is a live node of the tree.
    pub fn is_live(&self, node: u64) -> (live: bool)
        requires
            self.wf(),
        ensures
            live == self@.nodes.contains(node),
    {
        self.live.contains(&node)
    }
}


/// The status code for a taffy error.
pub fn map_err(e: TreeError) -> (code: u32)
    ensures
        code == (match e {
            TreeError::ChildIndexOutOfBounds => TAFFY_ERR_INDEX_OUT_OF_BOUNDS,
            _ => TAFFY_ERR_INVALID_NODE,
        }),
{
    match e {
        TreeError::ChildIndexOutOfBounds => TAFFY_ERR_INDEX_OUT_OF_BOUNDS,
        TreeError::InvalidParentNode | TreeError::InvalidChildNode | TreeError::InvalidInputNode => {
            TAFFY_ERR_INVALID_NODE
        },
    }
}

impl FfiState {
    /// Drops every node.
    pub fn clear(&mut self) -> (code: u32)
        requires
            old(self).wf(),
        ensures
            final(self).wf(),
            code == TAFFY_OK,
            final(self)@.nodes.is_empty(),
            final(self)@.parents.dom().is_empty(),
            final(self)@.contexts.dom().is_empty(),
            final(self)@.rounding == old(self)@.rounding,
            final(self)@.styles.dom().is_empty(),
            final(self)@.rounded_layouts.dom().is_empty(),
            final(self)@.unrounded_layouts.dom().is_empty(),
    {
        tree_clear(&mut self.tree);
        self.live.clear();
        proof {
            assert(self@.children =~= Map::empty());
            assert(self@.parents =~= Map::empty());
        }
        TAFFY_OK
    }

    /// Turns on rounding of computed layouts.
    pub fn enable_rounding(&mut self) -> (code: u32)
        requires
            old(self).wf(),
        ensures
            final(self).wf(),
            code == TAFFY_OK,
            final(self)@.same_structure(old(self)@),
            final(self)@.dirty == old(self)@.dirty,
            final(self)@.same_styles_and_layouts(old(self)@),
            final(self)@.rounding,
    {
        tree_enable_rounding(&mut self.tree);
        TAFFY_OK
    }

    /// Turns off rounding of computed layouts.
    pub fn disable_rounding(&mut self) -> (code: u32)
        requires
            old(self).wf(),
        ensures
            final(self).wf(),
            code == TAFFY_OK,
            final(self)@.same_structure(old(self)@),
            final(self)@.dirty == old(self)@.dirty,
            final(self)@.same_styles_and_layouts(old(self)@),
            !final(self)@.rounding,
    {
        tree_disable_rounding(&mut self.tree);
        TAFFY_OK
    }

    /// The number of live nodes.
    pub fn total_node_count(&self) -> (count: usize)
        requires
            self.wf(),
        ensures
            count == self@.nodes.len(),
    {
        tree_total_node_count(&self.tree)
    }

    /// Creates a node with no children from a converted style, or reports the
    /// conversion's error code and changes nothing.
    pub fn node_new_leaf(&mut self, style: Result<TaffyStyle, ConvertError>) -> (res: Result<u64, u32>)
        requires
            old(self).wf(),
        ensures
            final(self).wf(),
            style is Err ==> res == Err::<u64, u32>(style->Err_0.0) && final(self)@ == old(self)@,
            style is Ok ==> res is Ok && ({
                let id = res->Ok_0;
                &&& !old(self)@.nodes.contains(id)
                &&& final(self)@.nodes == old(self)@.nodes.insert(id)
                &&& final(self)@.children == old(self)@.children.insert(id, Seq::empty())
                &&& final(self)@.parents == old(self)@.parents
                &&& final(self)@.contexts.remove(id) == old(self)@.contexts
                &&& final(self)@.rounding == old(self)@.rounding
                &&& final(self)@.styles == old(self)@.styles.insert(id, style->Ok_0)
                &&& final(self)@.rounded_layouts.remove(id) == old(self)@.rounded_layouts
                &&& final(self)@.unrounded_layouts.remove(id) == old(self)@.unrounded_layouts
                &&& final(self)@.dirty == old(self)@.dirty.insert(id)
            }),
    {
        let style = match style {
            Ok(s) => s,
            Err(e) => return Err(e.0),
        };
        let ghost old_model = self@;
        match tree_new_leaf(&mut self.tree, style) {
            Ok(id) => {
                self.live.insert(id);
                proof {
                    let m = self@;
                    assert(m.children.dom() =~= m.nodes);
                    assert forall|c: u64| #[trigger] m.parents.contains_key(c) implies m.children[m.parents[c]].contains(c) by {
                        assert(old_model.nodes.contains(old_model.parents[c]));
                    }
                }
                Ok(id)
            },
            Err(e) => Err(map_err(e)),
        }
    }

    /// Creates a node with the given children. An id in `children` that is not
    /// live is reported before the style's conversion error, and both leave
    /// the tree as it was.
    pub fn node_new_with_children(&mut self, style: Result<TaffyStyle, ConvertError>, children: &Vec<u64>) -> (res: Result<u64, u32>)
        requires
            old(self).wf(),
        ensures
            final(self).wf(),
            !old(self)@.all_live(children@) ==> res == Err::<u64, u32>(TAFFY_ERR_INVALID_NODE) && final(self)@ == old(self)@,
            old(self)@.all_live(children@) && style is Err ==> res == Err::<u64, u32>(style->Err_0.0) && final(self)@ == old(self)@,
            old(self)@.all_live(children@) && style is Ok ==> res is Ok && ({
                let id = res->Ok_0;
                &&& !old(self)@.nodes.contains(id)
                &&& final(self)@.nodes == old(self)@.nodes.insert(id)
                &&& final(self)@.children == old(self)@.children.insert(id, children@)
                &&& final(self)@.parents == old(self)@.parents.union_prefer_right(
                    Map::new(|c: u64| children@.contains(c), |c: u64| id))
                &&& final(self)@.contexts.remove(id) == old(self)@.contexts
                &&& final(self)@.rounding == old(self)@.rounding
                &&& final(self)@.styles == old(self)@.styles.insert(id, style->Ok_0)
                &&& final(self)@.rounded_layouts.remove(id) == old(self)@.rounded_layouts
                &&& final(self)@.unrounded_layouts.remove(id) == old(self)@.unrounded_layouts
                &&& final(self)@.dirty == old(self)@.dirty.insert(id)
            }),
    {
        let mut i: usize = 0;
        while i < children.len()
            invariant
                self.wf(),
                i <= children.len(),
                forall|j: int| 0 <= j < i ==> self@.nodes.contains(#[trigger] children@[j]),
            decreases children.len() - i,
        {
            if !self.is_live(children[i]) {
                return Err(TAFFY_ERR_INVALID_NODE);
            }
            i = i + 1;
        }
        let style = match style {
            Ok(s) => s,
            Err(e) => return Err(e.0),
        };
        let ghost old_model = self@;
        match tree_new_with_children(&mut self.tree, style, children) {
            Ok(id) => {
                self.live.insert(id);
                proof {
                    let m = self@;
                    assert(m.children.dom() =~= m.nodes);
                    assert forall|c: u64| #[trigger] m.parents.contains_key(c) implies m.children[m.parents[c]].contains(c) by {
                        if children@.contains(c) {
                            assert(m.parents[c] == id);
                        } else {
                            assert(m.parents[c] == old_model.parents[c]);
                            assert(old_model.nodes.contains(old_model.parents[c]));
                        }
                    }
                }
                Ok(id)
            },
            Err(e) => Err(map_err(e)),
        }
    }

    /// Replaces a node's style and marks it dirty. An id that is not live is
    /// reported before the style's conversion error.
    pub fn node_set_style(&mut self, node: u64, style: Result<TaffyStyle, ConvertError>) -> (code: u32)
        requires
            old(self).wf(),
        ensures
            final(self).wf(),
            !old(self)@.nodes.contains(node) ==> code == TAFFY_ERR_INVALID_NODE && final(self)@ == old(self)@,
            old(self)@.nodes.contains(node) && style is Err ==> code == style->Err_0.0 && final(self)@ == old(self)@,
            old(self)@.nodes.contains(node) && style is Ok ==> code == TAFFY_OK
                && final(self)@.same_structure(old(self)@) && final(self)@.rounding == old(self)@.rounding
                && final(self)@.styles == old(self)@.styles.insert(node, style->Ok_0)
                && final(self)@.rounded_layouts == old(self)@.rounded_layouts
                && final(self)@.unrounded_layouts == old(self)@.unrounded_layouts
                && final(self)@.dirty.contains(node)
                && old(self)@.dirty.subset_of(final(self)@.dirty),
    {
        if !self.is_live(node) {
            return TAFFY_ERR_INVALID_NODE;
        }
        let style = match style {
            Ok(s) => s,
            Err(e) => return e.0,
        };
        match tree_set_style(&mut self.tree, node, style) {
            Ok(()) => TAFFY_OK,
            Err(e) => map_err(e),
        }
    }

    /// Attaches a context value to a node and marks it dirty.
    pub fn node_set_context(&mut self, node: u64, context: usize) -> (code: u32)
        requires
            old(self).wf(),
        ensures
            final(self).wf(),
            !old(self)@.nodes.contains(node) ==> code == TAFFY_ERR_INVALID_NODE && final(self)@ == old(self)@,
            old(self)@.nodes.contains(node) ==> {
                &&& code == TAFFY_OK
                &&& final(self)@.nodes == old(self)@.nodes
                &&& final(self)@.children == old(self)@.children
                &&& final(self)@.parents == old(self)@.parents
                &&& final(self)@.contexts == old(self)@.contexts.insert(node, context)
                &&& final(self)@.rounding == old(self)@.rounding
                &&& final(self)@.same_styles_and_layouts(old(self)@)
                &&& final(self)@.dirty.contains(node)
                &&& old(self)@.dirty.subset_of(final(self)@.dirty)
            },
    {
        if !self.is_live(node) {
            return TAFFY_ERR_INVALID_NODE;
        }
        match tree_set_node_context(&mut self.tree, node, context) {
            Ok(()) => TAFFY_OK,
            Err(e) => map_err(e),
        }
    }

    /// A node's context value, `None` for a node that has none.
    pub fn node_get_context(&self, node: u64) -> (res: Result<Option<usize>, u32>)
        requires
            self.wf(),
        ensures
            !self@.nodes.contains(node) ==> res == Err::<Option<usize>, u32>(TAFFY_ERR_INVALID_NODE),
            self@.nodes.contains(node) ==> res == Ok::<Option<usize>, u32>(
                if self@.contexts.contains_key(node) { Some(self@.contexts[node]) } else { None }),
    {
        if !self.is_live(node) {
            return Err(TAFFY_ERR_INVALID_NODE);
        }
        Ok(tree_get_node_context(&self.tree, node))
    }

    /// The child of `parent` at `index`.
    pub fn node_child_at_index(&self, parent: u64, index: usize) -> (res: Result<u64, u32>)
        requires
            self.wf(),
        ensures
            !self@.nodes.contains(parent) ==> res == Err::<u64, u32>(TAFFY_ERR_INVALID_NODE),
            self@.nodes.contains(parent) && index >= self@.children[parent].len()
                ==> res == Err::<u64, u32>(TAFFY_ERR_INDEX_OUT_OF_BOUNDS),
            self@.nodes.contains(parent) && index < self@.children[parent].len()
                ==> res == Ok::<u64, u32>(self@.children[parent][index as int]),
    {
        if !self.is_live(parent) {
            return Err(TAFFY_ERR_INVALID_NODE);
        }
        match tree_child_at_index(&self.tree, parent, index) {
            Ok(id) => Ok(id),
            Err(e) => Err(map_err(e)),
        }
    }

    /// The number of children of `node`.
    pub fn node_child_count(&self, node: u64) -> (res: Result<usize, u32>)
        requires
            self.wf(),
        ensures
            !self@.nodes.contains(node) ==> res == Err::<usize, u32>(TAFFY_ERR_INVALID_NODE),
            self@.nodes.contains(node) ==> res is Ok && res->Ok_0 == self@.children[node].len(),
    {
        if !self.is_live(node) {
            return Err(TAFFY_ERR_INVALID_NODE);
        }
        Ok(tree_child_count(&self.tree, node))
    }

    /// A copy of the child list of `node`.
    pub fn node_children(&self, node: u64) -> (res: Result<Vec<u64>, u32>)
        requires
            self.wf(),
        ensures
            !self@.nodes.contains(node) ==> res == Err::<Vec<u64>, u32>(TAFFY_ERR_INVALID_NODE),
            self@.nodes.contains(node) ==> res is Ok && res->Ok_0@ == self@.children[node],
    {
        if !self.is_live(node) {
            return Err(TAFFY_ERR_INVALID_NODE);
        }
        match tree_children(&self.tree, node) {
            Ok(ids) => Ok(ids),
            Err(e) => Err(map_err(e)),
        }
    }

    /// The parent of `node`; `TAFFY_ERR_NO_PARENT` for a node without one.
    pub fn node_parent(&self, node: u64) -> (res: Result<u64, u32>)
        requires
            self.wf(),
        ensures
            !self@.nodes.contains(node) ==> res == Err::<u64, u32>(TAFFY_ERR_INVALID_NODE),
            self@.nodes.contains(node) && !self@.parents.contains_key(node) ==> res == Err::<u64, u32>(TAFFY_ERR_NO_PARENT),
            self@.nodes.contains(node) && self@.parents.contains_key(node) ==> res == Ok::<u64, u32>(self@.parents[node]),
    {
        if !self.is_live(node) {
            return Err(TAFFY_ERR_INVALID_NODE);
        }
        match tree_parent(&self.tree, node) {
            Some(p) => Ok(p),
            None => Err(TAFFY_ERR_NO_PARENT),
        }
    }

    /// Whether `node`'s layout is marked as needing to be computed again.
    pub fn node_dirty(&self, node: u64) -> (res: Result<bool, u32>)
        requires
            self.wf(),
        ensures
            !self@.nodes.contains(node) ==> res == Err::<bool, u32>(TAFFY_ERR_INVALID_NODE),
            self@.nodes.contains(node) ==> res == Ok::<bool, u32>(self@.dirty.contains(node)),
    {
        if !self.is_live(node) {
            return Err(TAFFY_ERR_INVALID_NODE);
        }
        match tree_dirty(&self.tree, node) {
            Ok(d) => Ok(d),
            Err(e) => Err(map_err(e)),
        }
    }

    /// Marks `node` as needing layout, and its ancestors up the parent links
    /// as far as `dirty_chain` goes (up to the first that already was).
    pub fn node_mark_dirty(&mut self, node: u64) -> (code: u32)
        requires
            old(self).wf(),
        ensures
            final(self).wf(),
            !old(self)@.nodes.contains(node) ==> code == TAFFY_ERR_INVALID_NODE && final(self)@ == old(self)@,
            old(self)@.nodes.contains(node) ==> {
                &&& code == TAFFY_OK
                &&& final(self)@.same_structure(old(self)@)
                &&& final(self)@.rounding == old(self)@.rounding
                &&& final(self)@.same_styles_and_layouts(old(self)@)
                &&& final(self)@.dirty == old(self)@.dirty.union(
                    dirty_chain(old(self)@.parents, old(self)@.dirty, node, old(self)@.nodes.len() + 1))
            },
    {
        if !self.is_live(node) {
            return TAFFY_ERR_INVALID_NODE;
        }
        match tree_mark_dirty(&mut self.tree, node) {
            Ok(()) => TAFFY_OK,
            Err(e) => map_err(e),
        }
    }

    /// The layout stored for `node`, rounded or not as the tree is set.
    pub fn node_layout(&self, node: u64) -> (res: Result<Layout, u32>)
        requires
            self.wf(),
        ensures
            !self@.nodes.contains(node) ==> res == Err::<Layout, u32>(TAFFY_ERR_INVALID_NODE),
            self@.nodes.contains(node) ==> res is Ok && res->Ok_0 == self@.layout(node),
    {
        if !self.is_live(node) {
            return Err(TAFFY_ERR_INVALID_NODE);
        }
        match tree_layout(&self.tree, node) {
            Ok(l) => Ok(l),
            Err(e) => Err(map_err(e)),
        }
    }
}


impl FfiState {
    /// Whether every id of `ids` is live.
    fn all_live(&self, ids: &Vec<u64>) -> (ok: bool)
        requires
            self.wf(),
        ensures
            ok == self@.all_live(ids@),
    {
        let mut i: usize = 0;
        while i < ids.len()
            invariant
                self.wf(),
                i <= ids.len(),
                forall|j: int| 0 <= j < i ==> self@.nodes.contains(#[trigger] ids@[j]),
            decreases ids.len() - i,
        {
            if !self.is_live(ids[i]) {
                return false;
            }
            i = i + 1;
        }
        true
    }

    /// Removes a node from the tree. Its parent drops it from its list and its
    /// children lose their parent link; they stay in the tree. A child list
    /// that names a node no longer in the tree is refused with
    /// `TAFFY_ERR_UNKNOWN`, and nothing changes.
    pub fn node_remove(&mut self, node: u64) -> (code: u32)
        requires
            old(self).wf(),
        ensures
            final(self).wf(),
            !old(self)@.nodes.contains(node) ==> code == TAFFY_ERR_INVALID_NODE && final(self)@ == old(self)@,
            old(self)@.nodes.contains(node) && !old(self)@.all_live(old(self)@.children[node])
                ==> code == TAFFY_ERR_UNKNOWN && final(self)@ == old(self)@,
            old(self)@.nodes.contains(node) && old(self)@.all_live(old(self)@.children[node]) ==> {
                &&& code == TAFFY_OK
                &&& final(self)@.nodes == old(self)@.nodes.remove(node)
                &&& final(self)@.children == children_after_remove(old(self)@.children, old(self)@.parents, node)
                &&& final(self)@.parents == parents_after_remove(old(self)@.children, old(self)@.parents, node)
                &&& final(self)@.contexts == old(self)@.contexts.remove(node)
                &&& final(self)@.rounding == old(self)@.rounding
                &&& final(self)@.styles == old(self)@.styles.remove(node)
                &&& final(self)@.rounded_layouts == old(self)@.rounded_layouts.remove(node)
                &&& final(self)@.unrounded_layouts == old(self)@.unrounded_layouts.remove(node)
                &&& old(self)@.dirty.remove(node).subset_of(final(self)@.dirty)
                &&& old(self)@.parents.contains_key(node) && old(self)@.parents[node] != node
                    ==> final(self)@.dirty.contains(old(self)@.parents[node])
            },
    {
        if !self.is_live(node) {
            return TAFFY_ERR_INVALID_NODE;
        }
        let kids = match tree_children(&self.tree, node) {
            Ok(ids) => ids,
            Err(e) => return map_err(e),
        };
        if !self.all_live(&kids) {
            return TAFFY_ERR_UNKNOWN;
        }
        let ghost t0 = self.tree;
        match tree_remove(&mut self.tree, node) {
            Ok(_) => {
                self.live.remove(&node);
                proof {
                    let c0 = taffy_children(t0);
                    let p0 = taffy_parents(t0);
                    let c1 = children_detached(c0, p0, node);
                    let t = self.tree;
                    assert(c1.dom() == c0.dom());
                    assert(taffy_children(t).dom() =~= taffy_nodes(t));
                    assert forall|c: u64| #[trigger] taffy_parents(t).contains_key(c) implies
                        taffy_nodes(t).contains(taffy_parents(t)[c])
                        && taffy_children(t)[taffy_parents(t)[c]].contains(c) by {
                        let p = p0[c];
                        assert(p0.contains_key(c));
                        assert(!c1[node].to_set().contains(c));
                        assert(c0[p].contains(c));
                        if p == node {
                            if p0.contains_key(node) && p0[node] == node {
                                lemma_without_all_keeps(c0[node], c, node);
                            }
                            assert(c1[node].contains(c));
                            assert(false);
                        }
                        if p0.contains_key(node) && p == p0[node] {
                            lemma_without_all_keeps(c0[p], c, node);
                        }
                    }
                }
                TAFFY_OK
            },
            Err(e) => map_err(e),
        }
    }

    /// Appends `child` to `parent`'s children and makes `parent` its parent.
    pub fn node_add_child(&mut self, parent: u64, child: u64) -> (code: u32)
        requires
            old(self).wf(),
        ensures
            final(self).wf(),
            !old(self)@.nodes.contains(parent) || !old(self)@.nodes.contains(child)
                ==> code == TAFFY_ERR_INVALID_NODE && final(self)@ == old(self)@,
            old(self)@.nodes.contains(parent) && old(self)@.nodes.contains(child) ==> {
                &&& code == TAFFY_OK
                &&& final(self)@.nodes == old(self)@.nodes
                &&& final(self)@.children == old(self)@.children.insert(parent, old(self)@.children[parent].push(child))
                &&& final(self)@.parents == old(self)@.parents.insert(child, parent)
                &&& final(self)@.contexts == old(self)@.contexts
                &&& final(self)@.rounding == old(self)@.rounding
                &&& final(self)@.same_styles_and_layouts(old(self)@)
                &&& final(self)@.dirty.contains(parent)
                &&& old(self)@.dirty.subset_of(final(self)@.dirty)
            },
    {
        if !self.is_live(parent) || !self.is_live(child) {
            return TAFFY_ERR_INVALID_NODE;
        }
        let ghost t0 = self.tree;
        match tree_add_child(&mut self.tree, parent, child) {
            Ok(()) => {
                proof {
                    let t = self.tree;
                    assert(taffy_children(t).dom() =~= taffy_nodes(t));
                    assert forall|c: u64| #[trigger] taffy_parents(t).contains_key(c) implies
                        taffy_nodes(t).contains(c) && taffy_nodes(t).contains(taffy_parents(t)[c]) by {
                        if taffy_parents(t0).contains_key(c) {
                            assert(taffy_nodes(t0).contains(taffy_parents(t0)[c]));
                        }
                    }
                    assert forall|c: u64| #[trigger] taffy_parents(t).contains_key(c) implies
                        taffy_children(t)[taffy_parents(t)[c]].contains(c) by {
                        if c == child {
                            assert(taffy_children(t)[parent].last() == child);
                        } else {
                            assert(taffy_parents(t0).contains_key(c));
                            let p = taffy_parents(t0)[c];
                            let i = choose|i: int| 0 <= i < taffy_children(t0)[p].len() && taffy_children(t0)[p][i] == c;
                            assert(taffy_children(t)[p][i] == c);
                        }
                    }
                }
                TAFFY_OK
            },
            Err(e) => map_err(e),
        }
    }

    /// Inserts `child` into `parent`'s children at `index` and makes `parent`
    /// its parent; an index past the end is refused.
    pub fn node_insert_child_at_index(&mut self, parent: u64, index: usize, child: u64) -> (code: u32)
        requires
            old(self).wf(),
        ensures
            final(self).wf(),
            !old(self)@.nodes.contains(parent) || !old(self)@.nodes.contains(child)
                ==> code == TAFFY_ERR_INVALID_NODE && final(self)@ == old(self)@,
            old(self)@.nodes.contains(parent) && old(self)@.nodes.contains(child) && index > old(self)@.children[parent].len()
                ==> code == TAFFY_ERR_INDEX_OUT_OF_BOUNDS && final(self)@ == old(self)@,
            old(self)@.nodes.contains(parent) && old(self)@.nodes.contains(child) && index <= old(self)@.children[parent].len() ==> {
                &&& code == TAFFY_OK
                &&& final(self)@.nodes == old(self)@.nodes
                &&& final(self)@.children == old(self)@.children.insert(parent, old(self)@.children[parent].insert(index as int, child))
                &&& final(self)@.parents == old(self)@.parents.insert(child, parent)
                &&& final(self)@.contexts == old(self)@.contexts
                &&& final(self)@.rounding == old(self)@.rounding
                &&& final(self)@.same_styles_and_layouts(old(self)@)
                &&& final(self)@.dirty.contains(parent)
                &&& old(self)@.dirty.subset_of(final(self)@.dirty)
            },
    {
        if !self.is_live(parent) || !self.is_live(child) {
            return TAFFY_ERR_INVALID_NODE;
        }
        let ghost t0 = self.tree;
        match tree_insert_child_at_index(&mut self.tree, parent, index, child) {
            Ok(()) => {
                proof {
                    let t = self.tree;
                    assert(taffy_children(t).dom() =~= taffy_nodes(t));
                    assert forall|c: u64| #[trigger] taffy_parents(t).contains_key(c) implies
                        taffy_nodes(t).contains(c) && taffy_nodes(t).contains(taffy_parents(t)[c]) by {
                        if taffy_parents(t0).contains_key(c) {
                            assert(taffy_nodes(t0).contains(taffy_parents(t0)[c]));
                        }
                    }
                    assert forall|c: u64| #[trigger] taffy_parents(t).contains_key(c) implies
                        taffy_children(t)[taffy_parents(t)[c]].contains(c) by {
                        if c == child {
                            assert(taffy_children(t)[parent][index as int] == child);
                        } else {
                            assert(taffy_parents(t0).contains_key(c));
                            let p = taffy_parents(t0)[c];
                            let i = choose|i: int| 0 <= i < taffy_children(t0)[p].len() && taffy_children(t0)[p][i] == c;
                            if p == parent && i >= index {
                                assert(taffy_children(t)[p][i + 1] == c);
                            } else {
                                assert(taffy_children(t)[p][i] == c);
                            }
                        }
                    }
                }
                TAFFY_OK
            },
            Err(e) => map_err(e),
        }
    }

    /// Detaches `child` from `parent` (its first occurrence on the list) and
    /// returns it; `child` stays in the tree. A `child` that `parent` does not
    /// list is refused with `TAFFY_ERR_UNKNOWN`, and nothing changes.
    pub fn node_remove_child(&mut self, parent: u64, child: u64) -> (res: Result<u64, u32>)
        requires
            old(self).wf(),
        ensures
            final(self).wf(),
            !old(self)@.nodes.contains(parent) || !old(self)@.nodes.contains(child)
                ==> res == Err::<u64, u32>(TAFFY_ERR_INVALID_NODE) && final(self)@ == old(self)@,
            old(self)@.nodes.contains(parent) && old(self)@.nodes.contains(child) && !old(self)@.children[parent].contains(child)
                ==> res == Err::<u64, u32>(TAFFY_ERR_UNKNOWN) && final(self)@ == old(self)@,
            old(self)@.nodes.contains(parent) && old(self)@.nodes.contains(child) && old(self)@.children[parent].contains(child) ==> {
                &&& res == Ok::<u64, u32>(child)
                &&& final(self)@.nodes == old(self)@.nodes
                &&& final(self)@.children == old(self)@.children.insert(parent, without_first(old(self)@.children[parent], child))
                &&& final(self)@.parents == old(self)@.parents.remove(child)
                &&& final(self)@.contexts == old(self)@.contexts
                &&& final(self)@.rounding == old(self)@.rounding
                &&& final(self)@.same_styles_and_layouts(old(self)@)
                &&& final(self)@.dirty.contains(parent)
                &&& old(self)@.dirty.subset_of(final(self)@.dirty)
            },
    {
        if !self.is_live(parent) || !self.is_live(child) {
            return Err(TAFFY_ERR_INVALID_NODE);
        }
        let kids = match tree_children(&self.tree, parent) {
            Ok(ids) => ids,
            Err(e) => return Err(map_err(e)),
        };
        let mut found = false;
        let mut i: usize = 0;
        while i < kids.len()
            invariant
                i <= kids.len(),
                found == exists|j: int| 0 <= j < i && kids@[j] == child,
            decreases kids.len() - i,
        {
            if kids[i] == child {
                found = true;
            }
            i = i + 1;
        }
        if !found {
            return Err(TAFFY_ERR_UNKNOWN);
        }
        let ghost t0 = self.tree;
        match tree_remove_child(&mut self.tree, parent, child) {
            Ok(id) => {
                proof {
                    let t = self.tree;
                    assert(taffy_children(t).dom() =~= taffy_nodes(t));
                    assert forall|c: u64| #[trigger] taffy_parents(t).contains_key(c) implies
                        taffy_nodes(t).contains(c) && taffy_nodes(t).contains(taffy_parents(t)[c]) by {
                        if taffy_parents(t0).contains_key(c) {
                            assert(taffy_nodes(t0).contains(taffy_parents(t0)[c]));
                        }
                    }
                    assert forall|c: u64| #[trigger] taffy_parents(t).contains_key(c) implies
                        taffy_children(t)[taffy_parents(t)[c]].contains(c) by {
                        assert(taffy_parents(t0).contains_key(c));
                        let p = taffy_parents(t0)[c];
                        if p == parent {
                            lemma_without_first_keeps(taffy_children(t0)[p], c, child);
                        }
                    }
                }
                Ok(id)
            },
            Err(e) => Err(map_err(e)),
        }
    }

    /// Detaches the child at `index` of `parent` and returns it; an index not
    /// on the list is refused. A child there that is no longer in the tree is
    /// refused with `TAFFY_ERR_UNKNOWN`, and nothing changes.
    pub fn node_remove_child_at_index(&mut self, parent: u64, index: usize) -> (res: Result<u64, u32>)
        requires
            old(self).wf(),
        ensures
            final(self).wf(),
            !old(self)@.nodes.contains(parent) ==> res == Err::<u64, u32>(TAFFY_ERR_INVALID_NODE) && final(self)@ == old(self)@,
            old(self)@.nodes.contains(parent) && index >= old(self)@.children[parent].len()
                ==> res == Err::<u64, u32>(TAFFY_ERR_INDEX_OUT_OF_BOUNDS) && final(self)@ == old(self)@,
            old(self)@.nodes.contains(parent) && index < old(self)@.children[parent].len()
                && !old(self)@.nodes.contains(old(self)@.children[parent][index as int])
                ==> res == Err::<u64, u32>(TAFFY_ERR_UNKNOWN) && final(self)@ == old(self)@,
            old(self)@.nodes.contains(parent) && index < old(self)@.children[parent].len()
                && old(self)@.nodes.contains(old(self)@.children[parent][index as int]) ==> {
                let child = old(self)@.children[parent][index as int];
                &&& res == Ok::<u64, u32>(child)
                &&& final(self)@.nodes == old(self)@.nodes
                &&& final(self)@.children == old(self)@.children.insert(parent, old(self)@.children[parent].remove(index as int))
                &&& final(self)@.parents == old(self)@.parents.remove(child)
                &&& final(self)@.contexts == old(self)@.contexts
                &&& final(self)@.rounding == old(self)@.rounding
                &&& final(self)@.same_styles_and_layouts(old(self)@)
                &&& final(self)@.dirty.contains(parent)
                &&& old(self)@.dirty.subset_of(final(self)@.dirty)
            },
    {
        if !self.is_live(parent) {
            return Err(TAFFY_ERR_INVALID_NODE);
        }
        let count = tree_child_count(&self.tree, parent);
        if index < count {
            let child = match tree_child_at_index(&self.tree, parent, index) {
                Ok(id) => id,
                Err(e) => return Err(map_err(e)),
            };
            if !self.is_live(child) {
                return Err(TAFFY_ERR_UNKNOWN);
            }
        }
        let ghost t0 = self.tree;
        match tree_remove_child_at_index(&mut self.tree, parent, index) {
            Ok(id) => {
                proof {
                    let t = self.tree;
                    assert(taffy_children(t).dom() =~= taffy_nodes(t));
                    assert forall|c: u64| #[trigger] taffy_parents(t).contains_key(c) implies
                        taffy_nodes(t).contains(c) && taffy_nodes(t).contains(taffy_parents(t)[c]) by {
                        if taffy_parents(t0).contains_key(c) {
                            assert(taffy_nodes(t0).contains(taffy_parents(t0)[c]));
                        }
                    }
                    assert forall|c: u64| #[trigger] taffy_parents(t).contains_key(c) implies
                        taffy_children(t)[taffy_parents(t)[c]].contains(c) by {
                        assert(taffy_parents(t0).contains_key(c));
                        let p = taffy_parents(t0)[c];
                        let i = choose|i: int| 0 <= i < taffy_children(t0)[p].len() && taffy_children(t0)[p][i] == c;
                        if p == parent {
                            if i < index {
                                assert(taffy_children(t)[p][i] == c);
                            } else {
                                assert(i != index);
                                assert(taffy_children(t)[p][i - 1] == c);
                            }
                        }
                    }
                }
                Ok(id)
            },
            Err(e) => Err(map_err(e)),
        }
    }

    /// Puts `new_child` in the slot `index` of `parent`'s children and returns
    /// the child it replaces, which loses its parent link (so does `new_child`
    /// when it replaces itself); an index not on the list is refused. A
    /// replaced child that is no longer in the tree is refused with
    /// `TAFFY_ERR_UNKNOWN`, and nothing changes.
    pub fn node_replace_child_at_index(&mut self, parent: u64, index: usize, new_child: u64) -> (res: Result<u64, u32>)
        requires
            old(self).wf(),
        ensures
            final(self).wf(),
            !old(self)@.nodes.contains(parent) || !old(self)@.nodes.contains(new_child)
                ==> res == Err::<u64, u32>(TAFFY_ERR_INVALID_NODE) && final(self)@ == old(self)@,
            old(self)@.nodes.contains(parent) && old(self)@.nodes.contains(new_child) && index >= old(self)@.children[parent].len()
                ==> res == Err::<u64, u32>(TAFFY_ERR_INDEX_OUT_OF_BOUNDS) && final(self)@ == old(self)@,
            old(self)@.nodes.contains(parent) && old(self)@.nodes.contains(new_child) && index < old(self)@.children[parent].len()
                && !old(self)@.nodes.contains(old(self)@.children[parent][index as int])
                ==> res == Err::<u64, u32>(TAFFY_ERR_UNKNOWN) && final(self)@ == old(self)@,
            old(self)@.nodes.contains(parent) && old(self)@.nodes.contains(new_child) && index < old(self)@.children[parent].len()
                && old(self)@.nodes.contains(old(self)@.children[parent][index as int]) ==> {
                let old_child = old(self)@.children[parent][index as int];
                &&& res == Ok::<u64, u32>(old_child)
                &&& final(self)@.nodes == old(self)@.nodes
                &&& final(self)@.children == old(self)@.children.insert(parent, old(self)@.children[parent].update(index as int, new_child))
                &&& final(self)@.parents == old(self)@.parents.insert(new_child, parent).remove(old_child)
                &&& final(self)@.contexts == old(self)@.contexts
                &&& final(self)@.rounding == old(self)@.rounding
                &&& final(self)@.same_styles_and_layouts(old(self)@)
                &&& final(self)@.dirty.contains(parent)
                &&& old(self)@.dirty.subset_of(final(self)@.dirty)
            },
    {
        if !self.is_live(parent) || !self.is_live(new_child) {
            return Err(TAFFY_ERR_INVALID_NODE);
        }
        let count = tree_child_count(&self.tree, parent);
        if index < count {
            let current = match tree_child_at_index(&self.tree, parent, index) {
                Ok(id) => id,
                Err(e) => return Err(map_err(e)),
            };
            if !self.is_live(current) {
                return Err(TAFFY_ERR_UNKNOWN);
            }
        }
        let ghost t0 = self.tree;
        match tree_replace_child_at_index(&mut self.tree, parent, index, new_child) {
            Ok(id) => {
                proof {
                    let t = self.tree;
                    assert(taffy_children(t).dom() =~= taffy_nodes(t));
                    assert forall|c: u64| #[trigger] taffy_parents(t).contains_key(c) implies
                        taffy_nodes(t).contains(c) && taffy_nodes(t).contains(taffy_parents(t)[c]) by {
                        if taffy_parents(t0).contains_key(c) {
                            assert(taffy_nodes(t0).contains(taffy_parents(t0)[c]));
                        }
                    }
                    assert forall|c: u64| #[trigger] taffy_parents(t).contains_key(c) implies
                        taffy_children(t)[taffy_parents(t)[c]].contains(c) by {
                        if c == new_child {
                            assert(taffy_children(t)[parent][index as int] == new_child);
                        } else {
                            assert(taffy_parents(t0).contains_key(c));
                            let p = taffy_parents(t0)[c];
                            let i = choose|i: int| 0 <= i < taffy_children(t0)[p].len() && taffy_children(t0)[p][i] == c;
                            assert(taffy_children(t)[p][i] == c);
                        }
                    }
                }
                Ok(id)
            },
            Err(e) => Err(map_err(e)),
        }
    }
}


/// Whether taffy's `set_children` can take `list` in place of `old_list`
/// without panicking on a repeated entry (see `repeats_covered`).
fn covers_repeats(old_list: &Vec<u64>, list: &Vec<u64>) -> (ok: bool)
    ensures
        ok == repeats_covered(old_list@, list@),
{
    let mut i: usize = 0;
    while i < list.len()
        invariant
            i <= list.len(),
            forall|j: int| 0 <= j < i ==> occurrences(list@, #[trigger] list@[j]) >= 2
                ==> occurrences(list@, list@[j]) <= occurrences(old_list@, list@[j]) + 1,
        decreases list.len() - i,
    {
        let c = list[i];
        let k = count_occurrences(list, c);
        if k >= 2 {
            let m = count_occurrences(old_list, c);
            if k - 1 > m {
                return false;
            }
        }
        i = i + 1;
    }
    proof {
        assert forall|c: u64| #![trigger occurrences(list@, c)] occurrences(list@, c) >= 2
            implies occurrences(list@, c) <= occurrences(old_list@, c) + 1 by {
            lemma_occurs_contains(list@, c);
            let j = choose|j: int| 0 <= j < list@.len() && list@[j] == c;
            assert(occurrences(list@, list@[j]) >= 2);
        }
    }
    true
}

impl FfiState {
    /// Makes `children` the child list of `parent`. The nodes of the old list
    /// lose their parent link; each listed node is taken off the list of the
    /// parent it had (its first occurrence there) and links to `parent`. An
    /// old list that names a node no longer in the tree, or a node repeated in
    /// `children` more often than the old list covers, is refused with
    /// `TAFFY_ERR_UNKNOWN`, and nothing changes.
    pub fn node_set_children(&mut self, parent: u64, children: &Vec<u64>) -> (code: u32)
        requires
            old(self).wf(),
        ensures
            final(self).wf(),
            !old(self)@.nodes.contains(parent) || !old(self)@.all_live(children@)
                ==> code == TAFFY_ERR_INVALID_NODE && final(self)@ == old(self)@,
            old(self)@.nodes.contains(parent) && old(self)@.all_live(children@) && !(
                old(self)@.all_live(old(self)@.children[parent]) && repeats_covered(old(self)@.children[parent], children@))
                ==> code == TAFFY_ERR_UNKNOWN && final(self)@ == old(self)@,
            old(self)@.nodes.contains(parent) && old(self)@.all_live(children@)
                && old(self)@.all_live(old(self)@.children[parent]) && repeats_covered(old(self)@.children[parent], children@) ==> {
                &&& code == TAFFY_OK
                &&& final(self)@.nodes == old(self)@.nodes
                &&& final(self)@.children.dom() == old(self)@.children.dom()
                &&& forall|p: u64| #[trigger] final(self)@.children.contains_key(p)
                    ==> final(self)@.children[p] == children_after_set(old(self)@.children, old(self)@.parents, parent, children@, p)
                &&& final(self)@.parents == parents_after_set(old(self)@.children, old(self)@.parents, parent, children@)
                &&& final(self)@.contexts == old(self)@.contexts
                &&& final(self)@.rounding == old(self)@.rounding
                &&& final(self)@.same_styles_and_layouts(old(self)@)
                &&& final(self)@.dirty.contains(parent)
                &&& old(self)@.dirty.subset_of(final(self)@.dirty)
            },
    {
        if !self.is_live(parent) {
            return TAFFY_ERR_INVALID_NODE;
        }
        if !self.all_live(children) {
            return TAFFY_ERR_INVALID_NODE;
        }
        let current = match tree_children(&self.tree, parent) {
            Ok(ids) => ids,
            Err(e) => return map_err(e),
        };
        if !self.all_live(&current) || !covers_repeats(&current, children) {
            return TAFFY_ERR_UNKNOWN;
        }
        let ghost t0 = self.tree;
        match tree_set_children(&mut self.tree, parent, children) {
            Ok(()) => {
                proof {
                    let t = self.tree;
                    let c0 = taffy_children(t0);
                    let p0 = taffy_parents(t0);
                    let list = children@;
                    assert(taffy_children(t).dom() =~= taffy_nodes(t));
                    assert forall|c: u64| #[trigger] taffy_parents(t).contains_key(c) implies
                        taffy_nodes(t).contains(c) && taffy_nodes(t).contains(taffy_parents(t)[c])
                        && taffy_children(t)[taffy_parents(t)[c]].contains(c) by {
                        if list.contains(c) {
                            let j = choose|j: int| 0 <= j < list.len() && list[j] == c;
                            assert(taffy_nodes(t0).contains(list[j]));
                        } else {
                            assert(p0.contains_key(c));
                            assert(!c0[parent].to_set().contains(c));
                            let p = p0[c];
                            let moved = moved_from(c0, p0, parent, list, p);
                            assert(!moved.contains(c)) by {
                                broadcast use Seq::lemma_filter_contains_rev;
                            }
                            lemma_without_each_first_keeps(c0[p], moved, c);
                            assert(taffy_children(t).contains_key(p));
                        }
                    }
                }
                TAFFY_OK
            },
            Err(e) => map_err(e),
        }
    }
}


/// Number of values `write_layouts_dfs` writes for each node.
pub const LAYOUT_RECORD_LEN: usize = 6;

/// What the depth-first layout dump holds for one node: its id, its number of
/// children and its stored layout.
pub struct LayoutRecord {
    pub node: u64,
    pub child_count: usize,
    pub layout: Layout,
}

/// The number of values that `record_count` layout records take, if it fits
/// in a `usize`.
pub fn layout_values_required(record_count: usize) -> (required: Option<usize>)
    ensures
        record_count * LAYOUT_RECORD_LEN <= usize::MAX ==> required == Some((record_count * LAYOUT_RECORD_LEN) as usize),
        record_count * LAYOUT_RECORD_LEN > usize::MAX ==> required is None,
{
    record_count.checked_mul(LAYOUT_RECORD_LEN)
}

/// The status of copying `required` values into a caller's buffer of
/// `capacity` values (`has_buffer` is false for a null buffer).
pub fn buffer_status(required: usize, capacity: usize, has_buffer: bool) -> (code: u32)
    ensures
        code == (if !has_buffer || capacity < required { TAFFY_ERR_BUFFER_TOO_SMALL } else { TAFFY_OK }),
{
    if !has_buffer || capacity < required {
        TAFFY_ERR_BUFFER_TOO_SMALL
    } else {
        TAFFY_OK
    }
}

impl FfiState {
    /// Appends the pre-order walk from `node` (see `preorder`) to `out`.
    fn walk(&self, node: u64, fuel: usize, out: &mut Vec<u64>) -> (ok: bool)
        requires
            self.wf(),
        ensures
            ok == preorder(self@.children, self@.nodes, node, fuel as nat) is Some,
            ok ==> final(out)@ == old(out)@ + preorder(self@.children, self@.nodes, node, fuel as nat)->Some_0,
        decreases fuel, 0nat,
    {
        if fuel == 0 || !self.is_live(node) {
            return false;
        }
        let kids = match tree_children(&self.tree, node) {
            Ok(ids) => ids,
            Err(_) => return false,
        };
        let ghost before = out@;
        out.push(node);
        let ok = self.walk_list(&kids, 0, fuel - 1, out);
        proof {
            assert(kids@.skip(0) =~= kids@);
            if ok {
                let rest = preorder_list(self@.children, self@.nodes, kids@, (fuel - 1) as nat)->Some_0;
                assert(final(out)@ =~= before + (seq![node] + rest));
            }
        }
        ok
    }

    /// Appends the walks from `list[i..]` in turn to `out`.
    fn walk_list(&self, list: &Vec<u64>, i: usize, fuel: usize, out: &mut Vec<u64>) -> (ok: bool)
        requires
            self.wf(),
            i <= list.len(),
        ensures
            ok == preorder_list(self@.children, self@.nodes, list@.skip(i as int), fuel as nat) is Some,
            ok ==> final(out)@ == old(out)@ + preorder_list(self@.children, self@.nodes, list@.skip(i as int), fuel as nat)->Some_0,
        decreases fuel, list.len() - i,
    {
        if i == list.len() {
            assert(list@.skip(i as int) =~= Seq::<u64>::empty());
            assert(out@ =~= out@ + Seq::<u64>::empty());
            return true;
        }
        let ghost rest = list@.skip(i as int);
        assert(rest[0] == list@[i as int]);
        assert(rest.drop_first() =~= list@.skip(i + 1));
        let ghost before = out@;
        if !self.walk(list[i], fuel, out) {
            return false;
        }
        let ghost middle = out@;
        let ok = self.walk_list(list, i + 1, fuel, out);
        proof {
            if ok {
                let first = preorder(self@.children, self@.nodes, list@[i as int], fuel as nat)->Some_0;
                let tail = preorder_list(self@.children, self@.nodes, list@.skip(i + 1), fuel as nat)->Some_0;
                assert(final(out)@ =~= before + (first + tail));
            }
        }
        ok
    }

    /// The ids of the subtree under a live `root`, in depth-first pre-order,
    /// or `None` if the walk meets a node no longer in the tree or a cycle.
    fn subtree_ids(&self, root: u64) -> (res: Option<Vec<u64>>)
        requires
            self.wf(),
        ensures
            res is Some == self@.subtree_sound(root),
            res is Some ==> res->Some_0@ == self@.subtree(root),
    {
        proof {
            self.lemma_sound_walk(root);
        }
        let fuel = tree_total_node_count(&self.tree);
        let mut out: Vec<u64> = Vec::new();
        if self.walk(root, fuel, &mut out) {
            assert(out@ =~= Seq::<u64>::empty() + self@.subtree(root));
            Some(out)
        } else {
            None
        }
    }

    /// Lays out the subtree under `root` in the given available space and
    /// stores the layouts of taffy's pass; the root is clean afterwards. A
    /// subtree that reaches a node no longer in the tree, or that holds a
    /// cycle, is refused with `TAFFY_ERR_UNKNOWN`, and nothing changes.
    pub fn tree_compute_layout(&mut self, root: u64, width: AvailableSpace, height: AvailableSpace) -> (code: u32)
        requires
            old(self).wf(),
        ensures
            final(self).wf(),
            !old(self)@.nodes.contains(root) ==> code == TAFFY_ERR_INVALID_NODE && *final(self) == *old(self),
            old(self)@.nodes.contains(root) && !old(self)@.subtree_sound(root)
                ==> code == TAFFY_ERR_UNKNOWN && *final(self) == *old(self),
            old(self)@.nodes.contains(root) && old(self)@.subtree_sound(root)
                ==> code == TAFFY_OK && final(self)@.same_structure(old(self)@)
                    && final(self)@.rounding == old(self)@.rounding
                    && final(self)@.styles == old(self)@.styles
                    && old(self).layout_pass(root, width, height) == (final(self)@.rounded_layouts, final(self)@.unrounded_layouts)
                    && !final(self)@.dirty.contains(root)
                    && old(self)@.outside_subtree_kept(final(self)@, root),
    {
        if !self.is_live(root) {
            return TAFFY_ERR_INVALID_NODE;
        }
        if self.subtree_ids(root).is_none() {
            return TAFFY_ERR_UNKNOWN;
        }
        proof {
            self.lemma_sound_walk(root);
        }
        match tree_compute_layout(&mut self.tree, root, width, height) {
            Ok(()) => TAFFY_OK,
            Err(e) => map_err(e),
        }
    }

    /// As `tree_compute_layout`, with leaves measured by `measure`, which is
    /// called with the layout input, the leaf's id, the leaf's context value
    /// if it has one, and its style, and must accept any of them. The layouts
    /// stored rest on what `measure` returns.
    pub fn tree_compute_layout_with_measure<M>(
        &mut self,
        root: u64,
        width: AvailableSpace,
        height: AvailableSpace,
        measure: M,
    ) -> (code: u32)
        where M: FnMut(LayoutInput, u64, Option<usize>, StyleRef<'_>) -> LayoutOutput,
        requires
            old(self).wf(),
            forall|i: LayoutInput, n: u64, c: Option<usize>, s: StyleRef<'_>| call_requires(measure, (i, n, c, s)),
        ensures
            final(self).wf(),
            !old(self)@.nodes.contains(root) ==> code == TAFFY_ERR_INVALID_NODE && *final(self) == *old(self),
            old(self)@.nodes.contains(root) && !old(self)@.subtree_sound(root)
                ==> code == TAFFY_ERR_UNKNOWN && *final(self) == *old(self),
            old(self)@.nodes.contains(root) && old(self)@.subtree_sound(root)
                ==> code == TAFFY_OK && final(self)@.same_structure(old(self)@)
                    && final(self)@.rounding == old(self)@.rounding
                    && final(self)@.styles == old(self)@.styles
                    && (exists|measured: Seq<LayoutOutput>| #[trigger] old(self).measured_layout_pass(root, width, height, measured)
                        == (final(self)@.rounded_layouts, final(self)@.unrounded_layouts))
                    && !final(self)@.dirty.contains(root)
                    && old(self)@.outside_subtree_kept(final(self)@, root),
    {
        if !self.is_live(root) {
            return TAFFY_ERR_INVALID_NODE;
        }
        if self.subtree_ids(root).is_none() {
            return TAFFY_ERR_UNKNOWN;
        }
        proof {
            self.lemma_sound_walk(root);
        }
        let ghost before = *self;
        let res = tree_compute_layout_with_measure(&mut self.tree, root, width, height, measure);
        proof {
            let answers = choose|measured: Seq<LayoutOutput>| #[trigger] taffy_measured_layout_pass(before.tree, root, width, height, measured)
                == (self@.rounded_layouts, self@.unrounded_layouts);
            assert(before.measured_layout_pass(root, width, height, answers) == (self@.rounded_layouts, self@.unrounded_layouts));
        }
        match res {
            Ok(()) => TAFFY_OK,
            Err(e) => map_err(e),
        }
    }

    /// For `root` and every node under it, depth-first pre-order, its id, its
    /// number of children and its stored layout. A subtree that reaches a node
    /// no longer in the tree, or that holds a cycle, is refused with
    /// `TAFFY_ERR_UNKNOWN`.
    pub fn tree_layouts_dfs(&self, root: u64) -> (res: Result<Vec<LayoutRecord>, u32>)
        requires
            self.wf(),
        ensures
            !self@.nodes.contains(root) ==> res is Err && res->Err_0 == TAFFY_ERR_INVALID_NODE,
            self@.nodes.contains(root) && !self@.subtree_sound(root) ==> res is Err && res->Err_0 == TAFFY_ERR_UNKNOWN,
            self@.nodes.contains(root) && self@.subtree_sound(root) ==> res is Ok && {
                let records = res->Ok_0;
                &&& records.len() == self@.subtree(root).len()
                &&& forall|i: int| 0 <= i < records.len() ==> {
                    &&& (#[trigger] records@[i]).node == self@.subtree(root)[i]
                    &&& records@[i].child_count == self@.children[records@[i].node].len()
                    &&& records@[i].layout == self@.layout(records@[i].node)
                }
            },
    {
        if !self.is_live(root) {
            return Err(TAFFY_ERR_INVALID_NODE);
        }
        let ids = match self.subtree_ids(root) {
            Some(ids) => ids,
            None => return Err(TAFFY_ERR_UNKNOWN),
        };
        let mut records: Vec<LayoutRecord> = Vec::new();
        let mut i: usize = 0;
        while i < ids.len()
            invariant
                self.wf(),
                i <= ids.len(),
                ids@ == self@.subtree(root),
                self@.subtree_sound(root),
                records.len() == i,
                forall|j: int| 0 <= j < i ==> {
                    &&& (#[trigger] records@[j]).node == ids@[j]
                    &&& records@[j].child_count == self@.children[records@[j].node].len()
                    &&& records@[j].layout == self@.layout(records@[j].node)
                },
            decreases ids.len() - i,
        {
            let node = ids[i];
            proof {
                self.lemma_subtree_live(root, i as int);
            }
            let child_count = tree_child_count(&self.tree, node);
            let layout = match tree_layout(&self.tree, node) {
                Ok(l) => l,
                Err(e) => return Err(map_err(e)),
            };
            records.push(LayoutRecord { node, child_count, layout });
            i = i + 1;
        }
        Ok(records)
    }
}

} // verus!
