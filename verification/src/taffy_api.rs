//! The parts of the `taffy` crate that the library calls, with the contracts
//! that Verus believes of them.
//!
//! A `TaffyTree` is opaque to Verus. What the library needs to know of one is
//! given names below: the set of node ids the tree holds, the ordered child
//! list of every node, the parent link of every node that has one, the
//! context value attached to a node, its style, its stored rounded and
//! unrounded layouts, the rounding setting, and the set of nodes whose layout cache
//! is empty ("dirty"; outside a layout pass no call makes a dirty node
//! clean). Every wrapper states what the call does to these, as
//! the crate's source shows it, and leaves out by `requires` the inputs on
//! which the crate panics (an id that is not in the tree, for instance).
//!
//! Node ids are carried as the `u64` that taffy's `NodeId` converts to and
//! from; the context of a node is a `usize`.

use vstd::prelude::*;
use taffy::style::{AvailableSpace, CheapCloneStr, Style};
use taffy::tree::{Layout, LayoutInput, LayoutOutput, NodeId, TaffyError, TaffyTree};
use taffy::geometry::Size;
use taffy::TraversePartialTree;

verus! {

#[verifier::external_type_specification]
#[verifier::external_body]
#[verifier::reject_recursive_types(NodeContext)]
pub struct ExTaffyTree<NodeContext>(TaffyTree<NodeContext>);

/// A `taffy::style::Style`, carried through to the tree as it is. Verus
/// refuses to declare `Style` itself (its string parameter is bounded by an
/// outside trait), so the library holds it in a struct of its own that Verus
/// does not look into.
#[verifier::external_body]
pub struct TaffyStyle(pub Style);

/// A borrowed `taffy::style::Style`, handed to a measure function; held in a
/// struct of the library's for the reason given at `TaffyStyle`.
#[verifier::external_body]
pub struct StyleRef<'a>(pub &'a Style);

#[verifier::external_type_specification]
#[verifier::external_body]
pub struct ExLayout(Layout);

#[verifier::external_type_specification]
#[verifier::external_body]
pub struct ExAvailableSpace(AvailableSpace);

#[verifier::external_type_specification]
#[verifier::external_body]
pub struct ExTaffyError(TaffyError);

#[verifier::external_type_specification]
#[verifier::external_body]
pub struct ExNodeId(NodeId);

#[verifier::external_type_specification]
#[verifier::external_body]
pub struct ExLayoutInput(LayoutInput);

#[verifier::external_type_specification]
#[verifier::external_body]
pub struct ExLayoutOutput(LayoutOutput);

/// The ids of the nodes that the tree holds.
pub uninterp spec fn taffy_nodes(t: TaffyTree<usize>) -> Set<u64>;

/// The ordered child list of each node of the tree.
pub uninterp spec fn taffy_children(t: TaffyTree<usize>) -> Map<u64, Seq<u64>>;

/// The parent link of each node that has one.
pub uninterp spec fn taffy_parents(t: TaffyTree<usize>) -> Map<u64, u64>;

/// The context value that `get_node_context` hands out for a node of the tree.
pub uninterp spec fn taffy_contexts(t: TaffyTree<usize>) -> Map<u64, usize>;

/// The nodes of the tree whose layout cache is empty.
pub uninterp spec fn taffy_dirty(t: TaffyTree<usize>) -> Set<u64>;

/// Whether the tree hands out rounded layouts (its `use_rounding` setting,
/// on in a new tree; only `enable_rounding` and `disable_rounding` change it).
pub uninterp spec fn taffy_rounding(t: TaffyTree<usize>) -> bool;

/// The style of each node of the tree.
pub uninterp spec fn taffy_styles(t: TaffyTree<usize>) -> Map<u64, TaffyStyle>;

/// The rounded layout stored for each node of the tree (what `layout` hands
/// out while rounding is on).
pub uninterp spec fn taffy_rounded_layouts(t: TaffyTree<usize>) -> Map<u64, Layout>;

/// The unrounded layout stored for each node of the tree (what `layout`
/// hands out while rounding is off).
pub uninterp spec fn taffy_unrounded_layouts(t: TaffyTree<usize>) -> Map<u64, Layout>;

/// The rounded and the unrounded layouts that `compute_layout(root, width x
/// height)` leaves stored, as a function of the tree it runs on.
pub uninterp spec fn taffy_layout_pass(t: TaffyTree<usize>, root: u64, width: AvailableSpace, height: AvailableSpace) -> (Map<u64, Layout>, Map<u64, Layout>);

/// The rounded and the unrounded layouts that
/// `compute_layout_with_measure(root, width x height, measure)` leaves stored
/// when `measured` is what the calls of `measure` returned, in the order taffy
/// made them. Taffy's pass is fixed by the tree it runs on, its arguments and
/// those answers.
pub uninterp spec fn taffy_measured_layout_pass(
    t: TaffyTree<usize>,
    root: u64,
    width: AvailableSpace,
    height: AvailableSpace,
    measured: Seq<LayoutOutput>,
) -> (Map<u64, Layout>, Map<u64, Layout>);

/// The kinds of `taffy::tree::TaffyError`.
#[derive(Clone, Copy, Debug, PartialEq, Eq)]
pub enum TreeError {
    ChildIndexOutOfBounds,
    InvalidParentNode,
    InvalidChildNode,
    InvalidInputNode,
}

/// Tells the variants of `TaffyError` apart.
#[verifier::external_body]
fn error_kind(e: TaffyError) -> TreeError {
    match e {
        TaffyError::ChildIndexOutOfBounds { .. } => TreeError::ChildIndexOutOfBounds,
        TaffyError::InvalidParentNode(_) => TreeError::InvalidParentNode,
        TaffyError::InvalidChildNode(_) => TreeError::InvalidChildNode,
        TaffyError::InvalidInputNode(_) => TreeError::InvalidInputNode,
    }
}

/// Every parent link of the tree points at a node of the tree. Taffy's
/// `mark_dirty` walks these links and panics on one that does not.
pub open spec fn parents_closed(t: TaffyTree<usize>) -> bool {
    forall|c: u64| #[trigger] taffy_parents(t).contains_key(c)
        ==> taffy_nodes(t).contains(taffy_parents(t)[c])
}

/// Every node that has a parent link is listed among its parent's children.
/// Taffy's `set_children` unwraps the position of a moved child in its old
/// parent's list, and panics where it is missing.
pub open spec fn parents_listed(t: TaffyTree<usize>) -> bool {
    forall|c: u64| #[trigger] taffy_parents(t).contains_key(c)
        ==> taffy_children(t).contains_key(taffy_parents(t)[c])
            && taffy_children(t)[taffy_parents(t)[c]].contains(c)
}

/// Every id in `ids` is a node of the tree.
pub open spec fn all_in_tree(t: TaffyTree<usize>, ids: Seq<u64>) -> bool {
    forall|i: int| 0 <= i < ids.len() ==> taffy_nodes(t).contains(#[trigger] ids[i])
}

/// How many times `x` occurs in `s`.
pub open spec fn occurrences(s: Seq<u64>, x: u64) -> nat
    decreases s.len(),
{
    if s.len() == 0 {
        0
    } else {
        occurrences(s.drop_last(), x) + if s.last() == x { 1nat } else { 0nat }
    }
}

/// `s` with its first occurrence of `x` taken out (`s` itself if `x` does not occur).
pub open spec fn without_first(s: Seq<u64>, x: u64) -> Seq<u64>
    decreases s.len(),
{
    if s.len() == 0 {
        s
    } else if s[0] == x {
        s.drop_first()
    } else {
        seq![s[0]].add(without_first(s.drop_first(), x))
    }
}

/// `s` with the first occurrence of each of `xs` taken out, in the order of `xs`.
pub open spec fn without_each_first(s: Seq<u64>, xs: Seq<u64>) -> Seq<u64>
    decreases xs.len(),
{
    if xs.len() == 0 {
        s
    } else {
        without_each_first(without_first(s, xs[0]), xs.drop_first())
    }
}

/// `s` with every occurrence of `x` taken out.
pub open spec fn without_all(s: Seq<u64>, x: u64) -> Seq<u64>
    decreases s.len(),
{
    if s.len() == 0 {
        s
    } else if s[0] == x {
        without_all(s.drop_first(), x)
    } else {
        seq![s[0]].add(without_all(s.drop_first(), x))
    }
}

/// A child that `set_children(parent, list)` takes away from another parent:
/// it is in `list`, was not a child of `parent`, and has a parent link.
pub open spec fn moved_child(children: Map<u64, Seq<u64>>, parents: Map<u64, u64>, parent: u64, list: Seq<u64>, c: u64) -> bool {
    &&& list.contains(c)
    &&& !children[parent].contains(c)
    &&& parents.contains_key(c)
}

/// What `set_children(parent, list)` leaves as the child list of `p`.
pub open spec fn children_after_set(children: Map<u64, Seq<u64>>, parents: Map<u64, u64>, parent: u64, list: Seq<u64>, p: u64) -> Seq<u64> {
    if p == parent {
        list
    } else {
        without_each_first(children[p], moved_from(children, parents, parent, list, p))
    }
}

/// The children that `set_children(parent, list)` takes from `p`, in list order.
pub open spec fn moved_from(children: Map<u64, Seq<u64>>, parents: Map<u64, u64>, parent: u64, list: Seq<u64>, p: u64) -> Seq<u64> {
    list.filter(|c: u64| moved_child(children, parents, parent, list, c) && parents[c] == p)
}

/// The parent links after `set_children(parent, list)`: the nodes of
/// `parent`'s old list lose theirs, then every node of `list` links to `parent`.
pub open spec fn parents_after_set(children: Map<u64, Seq<u64>>, parents: Map<u64, u64>, parent: u64, list: Seq<u64>) -> Map<u64, u64> {
    parents.remove_keys(children[parent].to_set()).union_prefer_right(Map::new(|c: u64| list.contains(c), |c: u64| parent))
}

/// A child list for `set_children` on which taffy does not panic: a child that
/// occurs more than once in `list` occurs in the parent's current list at least
/// once fewer times than in `list`.
pub open spec fn repeats_covered(old_list: Seq<u64>, list: Seq<u64>) -> bool {
    forall|c: u64|
        #![trigger occurrences(list, c)]
        occurrences(list, c) >= 2 ==> occurrences(list, c) <= occurrences(old_list, c) + 1
}

/// `TaffyTree::compute_layout_with_measure`: as `tree_compute_layout`, with
/// leaves measured by `measure`, which taffy calls with the layout input, the
/// leaf's id, a copy of the leaf's context if it has one, and its style (a
/// copy, so that `measure` cannot change a context). `measure` may be called
/// on any such arguments, so it must accept all of them. The layouts stored
/// are `taffy_measured_layout_pass` of the tree, the arguments and the answers
/// `measure` gave, whatever they were. The root's result is stored in its
/// cache, so the root is clean afterwards, and nothing outside the root's
/// subtree changes.
#[verifier::external_body]
pub(crate) fn tree_compute_layout_with_measure<M>(
    tree: &mut TaffyTree<usize>,
    root: u64,
    width: AvailableSpace,
    height: AvailableSpace,
    mut measure: M,
) -> (res: Result<(), TreeError>)
    where M: FnMut(LayoutInput, u64, Option<usize>, StyleRef<'_>) -> LayoutOutput,
    requires
        taffy_nodes(*old(tree)).contains(root),
        subtree_sound(*old(tree), root),
        forall|i: LayoutInput, n: u64, c: Option<usize>, s: StyleRef<'_>| call_requires(measure, (i, n, c, s)),
    ensures
        res is Ok,
        taffy_nodes(*final(tree)) == taffy_nodes(*old(tree)),
        taffy_children(*final(tree)) == taffy_children(*old(tree)),
        taffy_parents(*final(tree)) == taffy_parents(*old(tree)),
        taffy_contexts(*final(tree)) == taffy_contexts(*old(tree)),
        taffy_rounding(*final(tree)) == taffy_rounding(*old(tree)),
        taffy_styles(*final(tree)) == taffy_styles(*old(tree)),
        exists|measured: Seq<LayoutOutput>| #[trigger] taffy_measured_layout_pass(*old(tree), root, width, height, measured)
            == (taffy_rounded_layouts(*final(tree)), taffy_unrounded_layouts(*final(tree))),
        !taffy_dirty(*final(tree)).contains(root),
        outside_subtree_kept(*old(tree), *final(tree), root),
{
    let avail = Size { width, height };
    tree.compute_layout_with_measure(NodeId::from(root), avail, |i, n, c, s| measure(i, u64::from(n), c.map(|p| *p), StyleRef(s)))
        .map_err(error_kind)
}

/// The child lists after `node`'s parent, if it has one, has dropped every
/// occurrence of `node` from its list.
pub open spec fn children_detached(children: Map<u64, Seq<u64>>, parents: Map<u64, u64>, node: u64) -> Map<u64, Seq<u64>> {
    if parents.contains_key(node) && children.contains_key(parents[node]) {
        let p = parents[node];
        children.insert(p, without_all(children[p], node))
    } else {
        children
    }
}

/// The child lists after `remove(node)`.
pub open spec fn children_after_remove(children: Map<u64, Seq<u64>>, parents: Map<u64, u64>, node: u64) -> Map<u64, Seq<u64>> {
    children_detached(children, parents, node).remove(node)
}

/// The parent links after `remove(node)`: the nodes on `node`'s list (as it
/// stands once its parent has dropped it) and `node` itself lose theirs.
pub open spec fn parents_after_remove(children: Map<u64, Seq<u64>>, parents: Map<u64, u64>, node: u64) -> Map<u64, u64> {
    parents.remove_keys(children_detached(children, parents, node)[node].to_set()).remove(node)
}

/// The ids met by a depth-first pre-order walk from `node` along the child
/// lists `children`, or `None` if the walk meets an id outside `nodes` or a
/// path of more than `fuel` nodes (in a walk over `nodes` with `fuel` at
/// least their number, such a path repeats a node: the lists form a cycle).
pub open spec fn preorder(children: Map<u64, Seq<u64>>, nodes: Set<u64>, node: u64, fuel: nat) -> Option<Seq<u64>>
    decreases fuel, 0nat,
{
    if fuel == 0 || !nodes.contains(node) || !children.contains_key(node) {
        None
    } else {
        match preorder_list(children, nodes, children[node], (fuel - 1) as nat) {
            Some(rest) => Some(seq![node].add(rest)),
            None => None,
        }
    }
}

/// The walks of `preorder` from each of `list` in turn, joined.
pub open spec fn preorder_list(children: Map<u64, Seq<u64>>, nodes: Set<u64>, list: Seq<u64>, fuel: nat) -> Option<Seq<u64>>
    decreases fuel, list.len(),
{
    if list.len() == 0 {
        Some(Seq::empty())
    } else {
        match preorder(children, nodes, list[0], fuel) {
            Some(first) => match preorder_list(children, nodes, list.drop_first(), fuel) {
                Some(rest) => Some(first.add(rest)),
                None => None,
            },
            None => None,
        }
    }
}

/// The subtree under `root` is finite and every node in it is a node of the
/// tree. Taffy's layout pass walks it; it panics on an id that is not a node
/// and does not return on a cycle.
pub open spec fn subtree_sound(t: TaffyTree<usize>, root: u64) -> bool {
    preorder(taffy_children(t), taffy_nodes(t), root, taffy_nodes(t).len()) is Some
}

/// The ids of the subtree under `root`, in the order the layout pass walks
/// them (meaningful where `subtree_sound(t, root)`).
pub open spec fn subtree_ids(t: TaffyTree<usize>, root: u64) -> Seq<u64> {
    preorder(taffy_children(t), taffy_nodes(t), root, taffy_nodes(t).len())->Some_0
}

/// A layout pass from `root` leaves every node outside its subtree as it was:
/// the node's dirty flag and both of its stored layouts.
pub open spec fn outside_subtree_kept(t0: TaffyTree<usize>, t1: TaffyTree<usize>, root: u64) -> bool {
    forall|n: u64| #![trigger taffy_dirty(t1).contains(n)] #![trigger taffy_rounded_layouts(t1)[n]]
        taffy_nodes(t0).contains(n) && !subtree_ids(t0, root).contains(n) ==> {
            &&& taffy_dirty(t1).contains(n) == taffy_dirty(t0).contains(n)
            &&& taffy_rounded_layouts(t1)[n] == taffy_rounded_layouts(t0)[n]
            &&& taffy_unrounded_layouts(t1)[n] == taffy_unrounded_layouts(t0)[n]
        }
}

/// `TaffyTree::compute_layout`: lays out the subtree under `root` in the given
/// available width and height and stores the results in its nodes: the
/// rounded and unrounded layouts it leaves are `taffy_layout_pass` of the
/// tree it ran on. The root's result is stored in its cache, so the root is
/// clean afterwards; the pass walks only the root's subtree, so every node
/// outside it keeps its dirty flag and layouts. Which caches inside it are
/// filled or cleared is not stated. No
/// node, child list, parent link, context, style or setting changes.
#[verifier::external_body]
pub(crate) fn tree_compute_layout(
    tree: &mut TaffyTree<usize>,
    root: u64,
    width: AvailableSpace,
    height: AvailableSpace,
) -> (res: Result<(), TreeError>)
    requires
        taffy_nodes(*old(tree)).contains(root),
        subtree_sound(*old(tree), root),
    ensures
        res is Ok,
        taffy_nodes(*final(tree)) == taffy_nodes(*old(tree)),
        taffy_children(*final(tree)) == taffy_children(*old(tree)),
        taffy_parents(*final(tree)) == taffy_parents(*old(tree)),
        taffy_contexts(*final(tree)) == taffy_contexts(*old(tree)),
        taffy_rounding(*final(tree)) == taffy_rounding(*old(tree)),
        taffy_styles(*final(tree)) == taffy_styles(*old(tree)),
        taffy_layout_pass(*old(tree), root, width, height) == (taffy_rounded_layouts(*final(tree)), taffy_unrounded_layouts(*final(tree))),
        !taffy_dirty(*final(tree)).contains(root),
        outside_subtree_kept(*old(tree), *final(tree), root),
{
    tree.compute_layout(NodeId::from(root), Size { width, height }).map_err(error_kind)
}

/// `TaffyTree::new`: a tree with no nodes.
#[verifier::external_body]
pub(crate) fn tree_new() -> (tree: TaffyTree<usize>)
    ensures
        taffy_nodes(tree) == Set::<u64>::empty(),
        taffy_children(tree).dom() == Set::<u64>::empty(),
        taffy_parents(tree).dom() == Set::<u64>::empty(),
        taffy_contexts(tree).dom() == Set::<u64>::empty(),
        taffy_dirty(tree) == Set::<u64>::empty(),
        taffy_rounding(tree),
        taffy_styles(tree).dom() == Set::<u64>::empty(),
        taffy_rounded_layouts(tree).dom() == Set::<u64>::empty(),
        taffy_unrounded_layouts(tree).dom() == Set::<u64>::empty(),
{
    TaffyTree::new()
}

/// `TaffyTree::with_capacity`: a tree with no nodes.
#[verifier::external_body]
pub(crate) fn tree_with_capacity(capacity: usize) -> (tree: TaffyTree<usize>)
    ensures
        taffy_nodes(tree) == Set::<u64>::empty(),
        taffy_children(tree).dom() == Set::<u64>::empty(),
        taffy_parents(tree).dom() == Set::<u64>::empty(),
        taffy_contexts(tree).dom() == Set::<u64>::empty(),
        taffy_dirty(tree) == Set::<u64>::empty(),
        taffy_rounding(tree),
        taffy_styles(tree).dom() == Set::<u64>::empty(),
        taffy_rounded_layouts(tree).dom() == Set::<u64>::empty(),
        taffy_unrounded_layouts(tree).dom() == Set::<u64>::empty(),
{
    TaffyTree::with_capacity(capacity)
}

/// `TaffyTree::clear`: drops every node. Taffy keeps the context values of the
/// dropped nodes in a side table, keyed by ids that no longer belong to the
/// tree; `taffy_contexts` speaks of the nodes of the tree only.
#[verifier::external_body]
pub(crate) fn tree_clear(tree: &mut TaffyTree<usize>)
    ensures
        taffy_nodes(*final(tree)) == Set::<u64>::empty(),
        taffy_children(*final(tree)).dom() == Set::<u64>::empty(),
        taffy_parents(*final(tree)).dom() == Set::<u64>::empty(),
        taffy_contexts(*final(tree)).dom() == Set::<u64>::empty(),
        taffy_rounding(*final(tree)) == taffy_rounding(*old(tree)),
        taffy_styles(*final(tree)).dom() == Set::<u64>::empty(),
        taffy_rounded_layouts(*final(tree)).dom() == Set::<u64>::empty(),
        taffy_unrounded_layouts(*final(tree)).dom() == Set::<u64>::empty(),
{
    tree.clear()
}

/// `TaffyTree::enable_rounding`: turns the rounding setting on; no node changes.
#[verifier::external_body]
pub(crate) fn tree_enable_rounding(tree: &mut TaffyTree<usize>)
    ensures
        taffy_nodes(*final(tree)) == taffy_nodes(*old(tree)),
        taffy_children(*final(tree)) == taffy_children(*old(tree)),
        taffy_parents(*final(tree)) == taffy_parents(*old(tree)),
        taffy_contexts(*final(tree)) == taffy_contexts(*old(tree)),
        taffy_rounding(*final(tree)),
        taffy_styles(*final(tree)) == taffy_styles(*old(tree)),
        taffy_rounded_layouts(*final(tree)) == taffy_rounded_layouts(*old(tree)),
        taffy_unrounded_layouts(*final(tree)) == taffy_unrounded_layouts(*old(tree)),
        taffy_dirty(*final(tree)) == taffy_dirty(*old(tree)),
{
    tree.enable_rounding()
}

/// `TaffyTree::disable_rounding`: turns the rounding setting off; no node changes.
#[verifier::external_body]
pub(crate) fn tree_disable_rounding(tree: &mut TaffyTree<usize>)
    ensures
        taffy_nodes(*final(tree)) == taffy_nodes(*old(tree)),
        taffy_children(*final(tree)) == taffy_children(*old(tree)),
        taffy_parents(*final(tree)) == taffy_parents(*old(tree)),
        taffy_contexts(*final(tree)) == taffy_contexts(*old(tree)),
        !taffy_rounding(*final(tree)),
        taffy_styles(*final(tree)) == taffy_styles(*old(tree)),
        taffy_rounded_layouts(*final(tree)) == taffy_rounded_layouts(*old(tree)),
        taffy_unrounded_layouts(*final(tree)) == taffy_unrounded_layouts(*old(tree)),
        taffy_dirty(*final(tree)) == taffy_dirty(*old(tree)),
{
    tree.disable_rounding()
}

/// `TaffyTree::total_node_count`: the number of nodes the tree holds.
#[verifier::external_body]
pub(crate) fn tree_total_node_count(tree: &TaffyTree<usize>) -> (count: usize)
    ensures
        count == taffy_nodes(*tree).len(),
{
    tree.total_node_count()
}

/// `TaffyTree::new_leaf`: adds a node with the given style, no children, no
/// parent and a cleared layout cache, and returns its id, which was not a node
/// of the tree before. No other node changes. Whether a context that taffy's
/// side table still holds for an earlier node of the same slot reappears on
/// the new node (slotmap versions wrap after 2^31 reuses) is left open.
#[verifier::external_body]
pub(crate) fn tree_new_leaf(tree: &mut TaffyTree<usize>, style: TaffyStyle) -> (res: Result<u64, TreeError>)
    ensures
        res matches Ok(id) && {
            &&& !taffy_nodes(*old(tree)).contains(id)
            &&& taffy_nodes(*final(tree)) == taffy_nodes(*old(tree)).insert(id)
            &&& taffy_children(*final(tree)) == taffy_children(*old(tree)).insert(id, Seq::empty())
            &&& taffy_parents(*final(tree)) == taffy_parents(*old(tree))
            &&& taffy_contexts(*final(tree)).remove(id) == taffy_contexts(*old(tree))
            &&& taffy_rounding(*final(tree)) == taffy_rounding(*old(tree))
            &&& taffy_styles(*final(tree)) == taffy_styles(*old(tree)).insert(id, style)
            &&& taffy_rounded_layouts(*final(tree)).remove(id) == taffy_rounded_layouts(*old(tree))
            &&& taffy_unrounded_layouts(*final(tree)).remove(id) == taffy_unrounded_layouts(*old(tree))
            &&& taffy_dirty(*final(tree)) == taffy_dirty(*old(tree)).insert(id)
        },
{
    tree.new_leaf(style.0).map(u64::from).map_err(error_kind)
}

/// `TaffyTree::new_with_children`: adds a node with the given style and child
/// list and no parent, makes it the parent link of each listed child (without
/// taking the child out of the list of a parent it had before), and returns
/// its id, which was not a node of the tree before. Panics on a listed id that
/// is not a node. What is left open of the new node's context is as for
/// `tree_new_leaf`.
#[verifier::external_body]
pub(crate) fn tree_new_with_children(tree: &mut TaffyTree<usize>, style: TaffyStyle, children: &Vec<u64>) -> (res: Result<u64, TreeError>)
    requires
        all_in_tree(*old(tree), children@),
    ensures
        res matches Ok(id) && {
            &&& !taffy_nodes(*old(tree)).contains(id)
            &&& taffy_nodes(*final(tree)) == taffy_nodes(*old(tree)).insert(id)
            &&& taffy_children(*final(tree)) == taffy_children(*old(tree)).insert(id, children@)
            &&& taffy_parents(*final(tree)) == taffy_parents(*old(tree)).union_prefer_right(
                Map::new(|c: u64| children@.contains(c), |c: u64| id))
            &&& taffy_contexts(*final(tree)).remove(id) == taffy_contexts(*old(tree))
            &&& taffy_rounding(*final(tree)) == taffy_rounding(*old(tree))
            &&& taffy_styles(*final(tree)) == taffy_styles(*old(tree)).insert(id, style)
            &&& taffy_rounded_layouts(*final(tree)).remove(id) == taffy_rounded_layouts(*old(tree))
            &&& taffy_unrounded_layouts(*final(tree)).remove(id) == taffy_unrounded_layouts(*old(tree))
            &&& taffy_dirty(*final(tree)) == taffy_dirty(*old(tree)).insert(id)
        },
{
    let ids: Vec<NodeId> = children.iter().map(|c| NodeId::from(*c)).collect();
    tree.new_with_children(style.0, &ids).map(u64::from).map_err(error_kind)
}


/// `TaffyTree::remove`: takes `node` out of the tree. If `node` has a parent
/// link, every occurrence of `node` leaves that parent's child list and the
/// parent is marked dirty; then every node on `node`'s own child list loses
/// its parent link, and `node` loses its list, its link and its context.
/// Panics if a node on `node`'s child list, or a parent link on the way up
/// from `node`'s parent, is not a node of the tree.
#[verifier::external_body]
pub(crate) fn tree_remove(tree: &mut TaffyTree<usize>, node: u64) -> (res: Result<u64, TreeError>)
    requires
        taffy_nodes(*old(tree)).contains(node),
        taffy_children(*old(tree)).contains_key(node),
        all_in_tree(*old(tree), taffy_children(*old(tree))[node]),
        parents_closed(*old(tree)),
    ensures
        res is Ok && res->Ok_0 == node,
        taffy_nodes(*final(tree)) == taffy_nodes(*old(tree)).remove(node),
        taffy_children(*final(tree)) == children_after_remove(taffy_children(*old(tree)), taffy_parents(*old(tree)), node),
        taffy_parents(*final(tree)) == parents_after_remove(taffy_children(*old(tree)), taffy_parents(*old(tree)), node),
        taffy_contexts(*final(tree)) == taffy_contexts(*old(tree)).remove(node),
        taffy_rounding(*final(tree)) == taffy_rounding(*old(tree)),
        taffy_styles(*final(tree)) == taffy_styles(*old(tree)).remove(node),
        taffy_rounded_layouts(*final(tree)) == taffy_rounded_layouts(*old(tree)).remove(node),
        taffy_unrounded_layouts(*final(tree)) == taffy_unrounded_layouts(*old(tree)).remove(node),
        taffy_dirty(*old(tree)).remove(node).subset_of(taffy_dirty(*final(tree))),
        taffy_parents(*old(tree)).contains_key(node) && taffy_parents(*old(tree))[node] != node
            ==> taffy_dirty(*final(tree)).contains(taffy_parents(*old(tree))[node]),
{
    tree.remove(NodeId::from(node)).map(u64::from).map_err(error_kind)
}

/// `TaffyTree::set_style`: replaces the node's style and marks it dirty.
/// Panics on an id that is not a node, or on a broken parent link above it.
#[verifier::external_body]
pub(crate) fn tree_set_style(tree: &mut TaffyTree<usize>, node: u64, style: TaffyStyle) -> (res: Result<(), TreeError>)
    requires
        taffy_nodes(*old(tree)).contains(node),
        parents_closed(*old(tree)),
    ensures
        res is Ok,
        taffy_nodes(*final(tree)) == taffy_nodes(*old(tree)),
        taffy_children(*final(tree)) == taffy_children(*old(tree)),
        taffy_parents(*final(tree)) == taffy_parents(*old(tree)),
        taffy_contexts(*final(tree)) == taffy_contexts(*old(tree)),
        taffy_rounding(*final(tree)) == taffy_rounding(*old(tree)),
        taffy_styles(*final(tree)) == taffy_styles(*old(tree)).insert(node, style),
        taffy_rounded_layouts(*final(tree)) == taffy_rounded_layouts(*old(tree)),
        taffy_unrounded_layouts(*final(tree)) == taffy_unrounded_layouts(*old(tree)),
        taffy_dirty(*final(tree)).contains(node),
        taffy_dirty(*old(tree)).subset_of(taffy_dirty(*final(tree))),
{
    tree.set_style(NodeId::from(node), style.0).map_err(error_kind)
}

/// `TaffyTree::set_node_context` with `Some(context)`: attaches the context to
/// the node and marks it dirty.
#[verifier::external_body]
pub(crate) fn tree_set_node_context(tree: &mut TaffyTree<usize>, node: u64, context: usize) -> (res: Result<(), TreeError>)
    requires
        taffy_nodes(*old(tree)).contains(node),
        parents_closed(*old(tree)),
    ensures
        res is Ok,
        taffy_nodes(*final(tree)) == taffy_nodes(*old(tree)),
        taffy_children(*final(tree)) == taffy_children(*old(tree)),
        taffy_parents(*final(tree)) == taffy_parents(*old(tree)),
        taffy_contexts(*final(tree)) == taffy_contexts(*old(tree)).insert(node, context),
        taffy_rounding(*final(tree)) == taffy_rounding(*old(tree)),
        taffy_styles(*final(tree)) == taffy_styles(*old(tree)),
        taffy_rounded_layouts(*final(tree)) == taffy_rounded_layouts(*old(tree)),
        taffy_unrounded_layouts(*final(tree)) == taffy_unrounded_layouts(*old(tree)),
        taffy_dirty(*final(tree)).contains(node),
        taffy_dirty(*old(tree)).subset_of(taffy_dirty(*final(tree))),
{
    tree.set_node_context(NodeId::from(node), Some(context)).map_err(error_kind)
}

/// `TaffyTree::get_node_context`: the node's context, if it has one.
#[verifier::external_body]
pub(crate) fn tree_get_node_context(tree: &TaffyTree<usize>, node: u64) -> (res: Option<usize>)
    requires
        taffy_nodes(*tree).contains(node),
    ensures
        res == (if taffy_contexts(*tree).contains_key(node) {
            Some(taffy_contexts(*tree)[node])
        } else {
            None
        }),
{
    tree.get_node_context(NodeId::from(node)).copied()
}

/// `TaffyTree::add_child`: sets `child`'s parent link to `parent`, appends
/// `child` to `parent`'s list (a list it is already on keeps it) and marks
/// `parent` dirty.
#[verifier::external_body]
pub(crate) fn tree_add_child(tree: &mut TaffyTree<usize>, parent: u64, child: u64) -> (res: Result<(), TreeError>)
    requires
        taffy_nodes(*old(tree)).contains(parent),
        taffy_nodes(*old(tree)).contains(child),
        taffy_children(*old(tree)).contains_key(parent),
        parents_closed(*old(tree)),
    ensures
        res is Ok,
        taffy_nodes(*final(tree)) == taffy_nodes(*old(tree)),
        taffy_children(*final(tree)) == taffy_children(*old(tree)).insert(parent, taffy_children(*old(tree))[parent].push(child)),
        taffy_parents(*final(tree)) == taffy_parents(*old(tree)).insert(child, parent),
        taffy_contexts(*final(tree)) == taffy_contexts(*old(tree)),
        taffy_rounding(*final(tree)) == taffy_rounding(*old(tree)),
        taffy_styles(*final(tree)) == taffy_styles(*old(tree)),
        taffy_rounded_layouts(*final(tree)) == taffy_rounded_layouts(*old(tree)),
        taffy_unrounded_layouts(*final(tree)) == taffy_unrounded_layouts(*old(tree)),
        taffy_dirty(*final(tree)).contains(parent),
        taffy_dirty(*old(tree)).subset_of(taffy_dirty(*final(tree))),
{
    tree.add_child(NodeId::from(parent), NodeId::from(child)).map_err(error_kind)
}

/// `TaffyTree::insert_child_at_index`: an index past the end of `parent`'s
/// list is refused with `ChildIndexOutOfBounds` and nothing changes;
/// otherwise as `tree_add_child`, with `child` inserted at `index`.
#[verifier::external_body]
pub(crate) fn tree_insert_child_at_index(tree: &mut TaffyTree<usize>, parent: u64, index: usize, child: u64) -> (res: Result<(), TreeError>)
    requires
        taffy_nodes(*old(tree)).contains(parent),
        taffy_nodes(*old(tree)).contains(child),
        taffy_children(*old(tree)).contains_key(parent),
        parents_closed(*old(tree)),
    ensures
        index > taffy_children(*old(tree))[parent].len() ==> {
            &&& res matches Err(TreeError::ChildIndexOutOfBounds)
            &&& *final(tree) == *old(tree)
        },
        index <= taffy_children(*old(tree))[parent].len() ==> {
            &&& res is Ok
            &&& taffy_nodes(*final(tree)) == taffy_nodes(*old(tree))
            &&& taffy_children(*final(tree)) == taffy_children(*old(tree)).insert(parent, taffy_children(*old(tree))[parent].insert(index as int, child))
            &&& taffy_parents(*final(tree)) == taffy_parents(*old(tree)).insert(child, parent)
            &&& taffy_contexts(*final(tree)) == taffy_contexts(*old(tree))
            &&& taffy_rounding(*final(tree)) == taffy_rounding(*old(tree))
            &&& taffy_styles(*final(tree)) == taffy_styles(*old(tree))
            &&& taffy_rounded_layouts(*final(tree)) == taffy_rounded_layouts(*old(tree))
            &&& taffy_unrounded_layouts(*final(tree)) == taffy_unrounded_layouts(*old(tree))
            &&& taffy_dirty(*final(tree)).contains(parent)
            &&& taffy_dirty(*old(tree)).subset_of(taffy_dirty(*final(tree)))
        },
{
    tree.insert_child_at_index(NodeId::from(parent), index, NodeId::from(child)).map_err(error_kind)
}

/// `TaffyTree::set_children`: every node on `parent`'s old list loses its
/// parent link; then, in list order, a listed node with a parent link is
/// taken off that parent's list (its first occurrence there) and gets
/// `parent` as its link; finally `parent`'s list becomes `children`. Panics
/// where a listed node's old parent does not list it, or on a repeat that
/// `parent`'s old list does not cover.
#[verifier::external_body]
pub(crate) fn tree_set_children(tree: &mut TaffyTree<usize>, parent: u64, children: &Vec<u64>) -> (res: Result<(), TreeError>)
    requires
        taffy_nodes(*old(tree)).contains(parent),
        taffy_children(*old(tree)).contains_key(parent),
        all_in_tree(*old(tree), children@),
        all_in_tree(*old(tree), taffy_children(*old(tree))[parent]),
        parents_closed(*old(tree)),
        parents_listed(*old(tree)),
        repeats_covered(taffy_children(*old(tree))[parent], children@),
    ensures
        res is Ok,
        taffy_nodes(*final(tree)) == taffy_nodes(*old(tree)),
        taffy_children(*final(tree)).dom() == taffy_children(*old(tree)).dom(),
        forall|p: u64| #[trigger] taffy_children(*final(tree)).contains_key(p)
            ==> taffy_children(*final(tree))[p] == children_after_set(taffy_children(*old(tree)), taffy_parents(*old(tree)), parent, children@, p),
        taffy_parents(*final(tree)) == parents_after_set(taffy_children(*old(tree)), taffy_parents(*old(tree)), parent, children@),
        taffy_contexts(*final(tree)) == taffy_contexts(*old(tree)),
        taffy_rounding(*final(tree)) == taffy_rounding(*old(tree)),
        taffy_styles(*final(tree)) == taffy_styles(*old(tree)),
        taffy_rounded_layouts(*final(tree)) == taffy_rounded_layouts(*old(tree)),
        taffy_unrounded_layouts(*final(tree)) == taffy_unrounded_layouts(*old(tree)),
        taffy_dirty(*final(tree)).contains(parent),
        taffy_dirty(*old(tree)).subset_of(taffy_dirty(*final(tree))),
{
    let ids: Vec<NodeId> = children.iter().map(|c| NodeId::from(*c)).collect();
    tree.set_children(NodeId::from(parent), &ids).map_err(error_kind)
}

/// `TaffyTree::remove_child`: takes the first occurrence of `child` off
/// `parent`'s list, clears `child`'s parent link and marks `parent` dirty.
/// Panics if `parent` does not list `child`.
#[verifier::external_body]
pub(crate) fn tree_remove_child(tree: &mut TaffyTree<usize>, parent: u64, child: u64) -> (res: Result<u64, TreeError>)
    requires
        taffy_nodes(*old(tree)).contains(parent),
        taffy_nodes(*old(tree)).contains(child),
        taffy_children(*old(tree)).contains_key(parent),
        taffy_children(*old(tree))[parent].contains(child),
        parents_closed(*old(tree)),
    ensures
        res is Ok && res->Ok_0 == child,
        taffy_nodes(*final(tree)) == taffy_nodes(*old(tree)),
        taffy_children(*final(tree)) == taffy_children(*old(tree)).insert(parent, without_first(taffy_children(*old(tree))[parent], child)),
        taffy_parents(*final(tree)) == taffy_parents(*old(tree)).remove(child),
        taffy_contexts(*final(tree)) == taffy_contexts(*old(tree)),
        taffy_rounding(*final(tree)) == taffy_rounding(*old(tree)),
        taffy_styles(*final(tree)) == taffy_styles(*old(tree)),
        taffy_rounded_layouts(*final(tree)) == taffy_rounded_layouts(*old(tree)),
        taffy_unrounded_layouts(*final(tree)) == taffy_unrounded_layouts(*old(tree)),
        taffy_dirty(*final(tree)).contains(parent),
        taffy_dirty(*old(tree)).subset_of(taffy_dirty(*final(tree))),
{
    tree.remove_child(NodeId::from(parent), NodeId::from(child)).map(u64::from).map_err(error_kind)
}

/// `TaffyTree::remove_child_at_index`: an index not on `parent`'s list is
/// refused with `ChildIndexOutOfBounds` and nothing changes; otherwise the
/// child there leaves the list and loses its parent link, `parent` is marked
/// dirty, and the child's id is returned.
#[verifier::external_body]
pub(crate) fn tree_remove_child_at_index(tree: &mut TaffyTree<usize>, parent: u64, index: usize) -> (res: Result<u64, TreeError>)
    requires
        taffy_nodes(*old(tree)).contains(parent),
        taffy_children(*old(tree)).contains_key(parent),
        index < taffy_children(*old(tree))[parent].len()
            ==> taffy_nodes(*old(tree)).contains(taffy_children(*old(tree))[parent][index as int]),
        parents_closed(*old(tree)),
    ensures
        index >= taffy_children(*old(tree))[parent].len() ==> {
            &&& res matches Err(TreeError::ChildIndexOutOfBounds)
            &&& *final(tree) == *old(tree)
        },
        index < taffy_children(*old(tree))[parent].len() ==> {
            let child = taffy_children(*old(tree))[parent][index as int];
            &&& (res is Ok && res->Ok_0 == child)
            &&& taffy_nodes(*final(tree)) == taffy_nodes(*old(tree))
            &&& taffy_children(*final(tree)) == taffy_children(*old(tree)).insert(parent, taffy_children(*old(tree))[parent].remove(index as int))
            &&& taffy_parents(*final(tree)) == taffy_parents(*old(tree)).remove(child)
            &&& taffy_contexts(*final(tree)) == taffy_contexts(*old(tree))
            &&& taffy_rounding(*final(tree)) == taffy_rounding(*old(tree))
            &&& taffy_styles(*final(tree)) == taffy_styles(*old(tree))
            &&& taffy_rounded_layouts(*final(tree)) == taffy_rounded_layouts(*old(tree))
            &&& taffy_unrounded_layouts(*final(tree)) == taffy_unrounded_layouts(*old(tree))
            &&& taffy_dirty(*final(tree)).contains(parent)
            &&& taffy_dirty(*old(tree)).subset_of(taffy_dirty(*final(tree)))
        },
{
    tree.remove_child_at_index(NodeId::from(parent), index).map(u64::from).map_err(error_kind)
}

/// `TaffyTree::replace_child_at_index`: an index not on `parent`'s list is
/// refused with `ChildIndexOutOfBounds` and nothing changes; otherwise
/// `new_child` gets `parent` as its link and takes the slot, the old child
/// there loses its link (set after, so that replacing a child by itself
/// leaves it without one), `parent` is marked dirty, and the old child's id is
/// returned.
#[verifier::external_body]
pub(crate) fn tree_replace_child_at_index(tree: &mut TaffyTree<usize>, parent: u64, index: usize, new_child: u64) -> (res: Result<u64, TreeError>)
    requires
        taffy_nodes(*old(tree)).contains(parent),
        taffy_nodes(*old(tree)).contains(new_child),
        taffy_children(*old(tree)).contains_key(parent),
        index < taffy_children(*old(tree))[parent].len()
            ==> taffy_nodes(*old(tree)).contains(taffy_children(*old(tree))[parent][index as int]),
        parents_closed(*old(tree)),
    ensures
        index >= taffy_children(*old(tree))[parent].len() ==> {
            &&& res matches Err(TreeError::ChildIndexOutOfBounds)
            &&& *final(tree) == *old(tree)
        },
        index < taffy_children(*old(tree))[parent].len() ==> {
            let old_child = taffy_children(*old(tree))[parent][index as int];
            &&& (res is Ok && res->Ok_0 == old_child)
            &&& taffy_nodes(*final(tree)) == taffy_nodes(*old(tree))
            &&& taffy_children(*final(tree)) == taffy_children(*old(tree)).insert(parent, taffy_children(*old(tree))[parent].update(index as int, new_child))
            &&& taffy_parents(*final(tree)) == taffy_parents(*old(tree)).insert(new_child, parent).remove(old_child)
            &&& taffy_contexts(*final(tree)) == taffy_contexts(*old(tree))
            &&& taffy_rounding(*final(tree)) == taffy_rounding(*old(tree))
            &&& taffy_styles(*final(tree)) == taffy_styles(*old(tree))
            &&& taffy_rounded_layouts(*final(tree)) == taffy_rounded_layouts(*old(tree))
            &&& taffy_unrounded_layouts(*final(tree)) == taffy_unrounded_layouts(*old(tree))
            &&& taffy_dirty(*final(tree)).contains(parent)
            &&& taffy_dirty(*old(tree)).subset_of(taffy_dirty(*final(tree)))
        },
{
    tree.replace_child_at_index(NodeId::from(parent), index, NodeId::from(new_child)).map(u64::from).map_err(error_kind)
}

/// `TaffyTree::child_at_index`: the child at `index` on `parent`'s list, or
/// `ChildIndexOutOfBounds` for an index not on it.
#[verifier::external_body]
pub(crate) fn tree_child_at_index(tree: &TaffyTree<usize>, parent: u64, index: usize) -> (res: Result<u64, TreeError>)
    requires
        taffy_nodes(*tree).contains(parent),
        taffy_children(*tree).contains_key(parent),
    ensures
        index >= taffy_children(*tree)[parent].len() ==> res matches Err(TreeError::ChildIndexOutOfBounds),
        index < taffy_children(*tree)[parent].len() ==> res is Ok && res->Ok_0 == taffy_children(*tree)[parent][index as int],
{
    tree.child_at_index(NodeId::from(parent), index).map(u64::from).map_err(error_kind)
}

/// `TraversePartialTree::child_count`: the length of the node's child list.
#[verifier::external_body]
pub(crate) fn tree_child_count(tree: &TaffyTree<usize>, node: u64) -> (count: usize)
    requires
        taffy_nodes(*tree).contains(node),
        taffy_children(*tree).contains_key(node),
    ensures
        count == taffy_children(*tree)[node].len(),
{
    tree.child_count(NodeId::from(node))
}

/// `TaffyTree::children`: a copy of the node's child list.
#[verifier::external_body]
pub(crate) fn tree_children(tree: &TaffyTree<usize>, node: u64) -> (res: Result<Vec<u64>, TreeError>)
    requires
        taffy_nodes(*tree).contains(node),
        taffy_children(*tree).contains_key(node),
    ensures
        res is Ok,
        res.unwrap()@ == taffy_children(*tree)[node],
{
    tree.children(NodeId::from(node)).map(|ids| ids.into_iter().map(u64::from).collect()).map_err(error_kind)
}

/// `TaffyTree::parent`: the node's parent link, if it has one.
#[verifier::external_body]
pub(crate) fn tree_parent(tree: &TaffyTree<usize>, node: u64) -> (res: Option<u64>)
    requires
        taffy_nodes(*tree).contains(node),
    ensures
        res == (if taffy_parents(*tree).contains_key(node) {
            Some(taffy_parents(*tree)[node])
        } else {
            None
        }),
{
    tree.parent(NodeId::from(node)).map(u64::from)
}

/// `TaffyTree::dirty`: whether the node's layout cache is empty.
#[verifier::external_body]
pub(crate) fn tree_dirty(tree: &TaffyTree<usize>, node: u64) -> (res: Result<bool, TreeError>)
    requires
        taffy_nodes(*tree).contains(node),
    ensures
        res is Ok && res->Ok_0 == taffy_dirty(*tree).contains(node),
{
    tree.dirty(NodeId::from(node)).map_err(error_kind)
}

/// The nodes that `mark_dirty(node)` clears, over the parent links `parents`
/// and the nodes `dirty` whose caches are empty: `node`, and, while the node
/// just reached was not dirty yet and has a parent link, that parent, and so
/// on. `fuel` bounds the steps; one more than the number of nodes is enough,
/// since every step but the last reaches a node that was not dirty and makes
/// it so.
pub open spec fn dirty_chain(parents: Map<u64, u64>, dirty: Set<u64>, node: u64, fuel: nat) -> Set<u64>
    decreases fuel,
{
    if fuel == 0 {
        Set::empty()
    } else if dirty.contains(node) || !parents.contains_key(node) {
        set![node]
    } else {
        set![node].union(dirty_chain(parents, dirty.insert(node), parents[node], (fuel - 1) as nat))
    }
}

/// `TaffyTree::mark_dirty`: clears the layout cache of the node; where that
/// cache was not empty yet, goes on to the node's parent, and so on up the
/// parent links (`dirty_chain`). Nothing else changes.
#[verifier::external_body]
pub(crate) fn tree_mark_dirty(tree: &mut TaffyTree<usize>, node: u64) -> (res: Result<(), TreeError>)
    requires
        taffy_nodes(*old(tree)).finite(),
        taffy_nodes(*old(tree)).contains(node),
        parents_closed(*old(tree)),
    ensures
        res is Ok,
        taffy_nodes(*final(tree)) == taffy_nodes(*old(tree)),
        taffy_children(*final(tree)) == taffy_children(*old(tree)),
        taffy_parents(*final(tree)) == taffy_parents(*old(tree)),
        taffy_contexts(*final(tree)) == taffy_contexts(*old(tree)),
        taffy_rounding(*final(tree)) == taffy_rounding(*old(tree)),
        taffy_styles(*final(tree)) == taffy_styles(*old(tree)),
        taffy_rounded_layouts(*final(tree)) == taffy_rounded_layouts(*old(tree)),
        taffy_unrounded_layouts(*final(tree)) == taffy_unrounded_layouts(*old(tree)),
        taffy_dirty(*final(tree)) == taffy_dirty(*old(tree)).union(
            dirty_chain(taffy_parents(*old(tree)), taffy_dirty(*old(tree)), node, taffy_nodes(*old(tree)).len() + 1)),
{
    tree.mark_dirty(NodeId::from(node)).map_err(error_kind)
}

/// `TaffyTree::layout`: the node's stored layout (rounded or not, as the
/// tree is configured). Its fields are floating-point numbers, of which
/// nothing is stated here: the library hands the value on unread.
#[verifier::external_body]
pub(crate) fn tree_layout(tree: &TaffyTree<usize>, node: u64) -> (res: Result<Layout, TreeError>)
    requires
        taffy_nodes(*tree).contains(node),
    ensures
        res is Ok,
        res->Ok_0 == (if taffy_rounding(*tree) {
            taffy_rounded_layouts(*tree)[node]
        } else {
            taffy_unrounded_layouts(*tree)[node]
        }),
{
    tree.layout(NodeId::from(node)).copied().map_err(error_kind)
}
} // verus!
