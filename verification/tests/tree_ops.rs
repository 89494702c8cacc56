use ffi_c_bindings::codes::{
    TAFFY_ERR_BUFFER_TOO_SMALL, TAFFY_ERR_INDEX_OUT_OF_BOUNDS, TAFFY_ERR_INVALID_ARGUMENT, TAFFY_ERR_INVALID_NODE,
    TAFFY_ERR_NO_PARENT, TAFFY_ERR_UNKNOWN, TAFFY_OK,
};
use ffi_c_bindings::style::ConvertError;
use ffi_c_bindings::taffy_api::{TaffyStyle, TreeError};
use ffi_c_bindings::tree::{buffer_status, layout_values_required, map_err, FfiState, LAYOUT_RECORD_LEN};

fn style() -> Result<TaffyStyle, ConvertError> {
    Ok(TaffyStyle(taffy::Style::default()))
}

fn sized(width: f32, height: f32) -> Result<TaffyStyle, ConvertError> {
    Ok(TaffyStyle(taffy::Style {
        size: taffy::Size { width: taffy::Dimension::length(width), height: taffy::Dimension::length(height) },
        ..Default::default()
    }))
}

fn definite(v: f32) -> taffy::AvailableSpace {
    taffy::AvailableSpace::Definite(v)
}

#[test]
fn new_tree_is_empty() {
    let t = FfiState::new();
    assert_eq!(t.total_node_count(), 0);
    let t = FfiState::with_capacity(8);
    assert_eq!(t.total_node_count(), 0);
}

#[test]
fn new_leaf_is_live_and_detached() {
    let mut t = FfiState::new();
    let a = t.node_new_leaf(style()).unwrap();
    assert!(t.is_live(a));
    assert_eq!(t.total_node_count(), 1);
    assert_eq!(t.node_child_count(a), Ok(0));
    assert_eq!(t.node_parent(a), Err(TAFFY_ERR_NO_PARENT));
    assert_eq!(t.node_get_context(a), Ok(None));
    assert_eq!(t.node_dirty(a), Ok(true));
}

#[test]
fn style_error_is_reported_and_changes_nothing() {
    let mut t = FfiState::new();
    let r = t.node_new_leaf(Err(ConvertError(TAFFY_ERR_INVALID_ARGUMENT)));
    assert_eq!(r, Err(TAFFY_ERR_INVALID_ARGUMENT));
    assert_eq!(t.total_node_count(), 0);
}

#[test]
fn unknown_ids_are_invalid_node() {
    let mut t = FfiState::new();
    let a = t.node_new_leaf(style()).unwrap();
    let bogus = a ^ 0x1234_0000_0000;
    assert_eq!(t.node_child_count(bogus), Err(TAFFY_ERR_INVALID_NODE));
    assert_eq!(t.node_parent(bogus), Err(TAFFY_ERR_INVALID_NODE));
    assert_eq!(t.node_add_child(a, bogus), TAFFY_ERR_INVALID_NODE);
    assert_eq!(t.node_add_child(bogus, a), TAFFY_ERR_INVALID_NODE);
    assert_eq!(t.node_remove(bogus), TAFFY_ERR_INVALID_NODE);
    assert_eq!(t.node_set_style(bogus, style()), TAFFY_ERR_INVALID_NODE);
    assert_eq!(t.node_set_context(bogus, 7), TAFFY_ERR_INVALID_NODE);
    assert_eq!(t.node_mark_dirty(bogus), TAFFY_ERR_INVALID_NODE);
    assert_eq!(t.node_dirty(bogus), Err(TAFFY_ERR_INVALID_NODE));
    assert_eq!(t.node_new_with_children(style(), &vec![a, bogus]), Err(TAFFY_ERR_INVALID_NODE));
    assert_eq!(t.node_set_children(a, &vec![bogus]), TAFFY_ERR_INVALID_NODE);
    assert_eq!(t.tree_compute_layout(bogus, definite(10.0), definite(10.0)), TAFFY_ERR_INVALID_NODE);
    assert!(t.node_layout(bogus).is_err());
    assert!(t.tree_layouts_dfs(bogus).is_err());
    assert_eq!(t.total_node_count(), 1);
    assert_eq!(t.node_child_count(a), Ok(0));
}

#[test]
fn invalid_child_is_reported_before_style_error() {
    let mut t = FfiState::new();
    let a = t.node_new_leaf(style()).unwrap();
    t.node_remove(a);
    let r = t.node_new_with_children(Err(ConvertError(TAFFY_ERR_INVALID_ARGUMENT)), &vec![a]);
    assert_eq!(r, Err(TAFFY_ERR_INVALID_NODE));
}

#[test]
fn add_child_links_both_ways() {
    let mut t = FfiState::new();
    let p = t.node_new_leaf(style()).unwrap();
    let c = t.node_new_leaf(style()).unwrap();
    assert_eq!(t.node_add_child(p, c), TAFFY_OK);
    assert_eq!(t.node_child_count(p), Ok(1));
    assert_eq!(t.node_child_at_index(p, 0), Ok(c));
    assert_eq!(t.node_child_at_index(p, 1), Err(TAFFY_ERR_INDEX_OUT_OF_BOUNDS));
    assert_eq!(t.node_parent(c), Ok(p));
    assert_eq!(t.node_children(p), Ok(vec![c]));
    assert_eq!(t.node_dirty(p), Ok(true));
}

#[test]
fn insert_child_at_index_checks_bounds() {
    let mut t = FfiState::new();
    let p = t.node_new_leaf(style()).unwrap();
    let a = t.node_new_leaf(style()).unwrap();
    let b = t.node_new_leaf(style()).unwrap();
    assert_eq!(t.node_insert_child_at_index(p, 1, a), TAFFY_ERR_INDEX_OUT_OF_BOUNDS);
    assert_eq!(t.node_child_count(p), Ok(0));
    assert_eq!(t.node_insert_child_at_index(p, 0, a), TAFFY_OK);
    assert_eq!(t.node_insert_child_at_index(p, 0, b), TAFFY_OK);
    assert_eq!(t.node_children(p), Ok(vec![b, a]));
}

#[test]
fn new_with_children_sets_parents() {
    let mut t = FfiState::new();
    let a = t.node_new_leaf(style()).unwrap();
    let b = t.node_new_leaf(style()).unwrap();
    let p = t.node_new_with_children(style(), &vec![a, b]).unwrap();
    assert_eq!(t.node_children(p), Ok(vec![a, b]));
    assert_eq!(t.node_parent(a), Ok(p));
    assert_eq!(t.node_parent(b), Ok(p));
    assert_eq!(t.total_node_count(), 3);
}

#[test]
fn set_children_moves_children_between_parents() {
    let mut t = FfiState::new();
    let a = t.node_new_leaf(style()).unwrap();
    let b = t.node_new_leaf(style()).unwrap();
    let c = t.node_new_leaf(style()).unwrap();
    let p = t.node_new_with_children(style(), &vec![a, b]).unwrap();
    let q = t.node_new_leaf(style()).unwrap();
    assert_eq!(t.node_set_children(q, &vec![b, c]), TAFFY_OK);
    assert_eq!(t.node_children(q), Ok(vec![b, c]));
    assert_eq!(t.node_children(p), Ok(vec![a]));
    assert_eq!(t.node_parent(b), Ok(q));
    assert_eq!(t.node_parent(c), Ok(q));
    assert_eq!(t.node_set_children(p, &vec![]), TAFFY_OK);
    assert_eq!(t.node_parent(a), Err(TAFFY_ERR_NO_PARENT));
    assert_eq!(t.total_node_count(), 5);
}

#[test]
fn set_children_with_uncovered_repeat_is_refused() {
    let mut t = FfiState::new();
    let a = t.node_new_leaf(style()).unwrap();
    let p = t.node_new_leaf(style()).unwrap();
    assert_eq!(t.node_set_children(p, &vec![a, a]), TAFFY_ERR_UNKNOWN);
    assert_eq!(t.node_child_count(p), Ok(0));
    assert_eq!(t.node_parent(a), Err(TAFFY_ERR_NO_PARENT));
    // A repeat that the current list covers is accepted.
    assert_eq!(t.node_set_children(p, &vec![a]), TAFFY_OK);
    assert_eq!(t.node_set_children(p, &vec![a, a]), TAFFY_OK);
    assert_eq!(t.node_children(p), Ok(vec![a, a]));
}

#[test]
fn replace_child_returns_the_old_child() {
    let mut t = FfiState::new();
    let a = t.node_new_leaf(style()).unwrap();
    let b = t.node_new_leaf(style()).unwrap();
    let p = t.node_new_with_children(style(), &vec![a]).unwrap();
    assert_eq!(t.node_replace_child_at_index(p, 1, b), Err(TAFFY_ERR_INDEX_OUT_OF_BOUNDS));
    assert_eq!(t.node_replace_child_at_index(p, 0, b), Ok(a));
    assert_eq!(t.node_children(p), Ok(vec![b]));
    assert_eq!(t.node_parent(a), Err(TAFFY_ERR_NO_PARENT));
    assert_eq!(t.node_parent(b), Ok(p));
    assert!(t.is_live(a));
}

#[test]
fn remove_child_detaches_but_keeps_the_node() {
    let mut t = FfiState::new();
    let a = t.node_new_leaf(style()).unwrap();
    let b = t.node_new_leaf(style()).unwrap();
    let p = t.node_new_with_children(style(), &vec![a, b]).unwrap();
    assert_eq!(t.node_remove_child(p, a), Ok(a));
    assert_eq!(t.node_children(p), Ok(vec![b]));
    assert_eq!(t.node_parent(a), Err(TAFFY_ERR_NO_PARENT));
    assert!(t.is_live(a));
    assert_eq!(t.node_remove_child(p, a), Err(TAFFY_ERR_UNKNOWN));
    assert_eq!(t.node_remove_child_at_index(p, 3), Err(TAFFY_ERR_INDEX_OUT_OF_BOUNDS));
    assert_eq!(t.node_remove_child_at_index(p, 0), Ok(b));
    assert_eq!(t.node_child_count(p), Ok(0));
    assert_eq!(t.total_node_count(), 3);
}

#[test]
fn remove_node_detaches_children_and_parent() {
    let mut t = FfiState::new();
    let a = t.node_new_leaf(style()).unwrap();
    let m = t.node_new_with_children(style(), &vec![a]).unwrap();
    let root = t.node_new_with_children(style(), &vec![m]).unwrap();
    assert_eq!(t.node_remove(m), TAFFY_OK);
    assert!(!t.is_live(m));
    assert!(t.is_live(a));
    assert_eq!(t.node_parent(a), Err(TAFFY_ERR_NO_PARENT));
    assert_eq!(t.node_child_count(root), Ok(0));
    assert_eq!(t.total_node_count(), 2);
    assert_eq!(t.node_remove(m), TAFFY_ERR_INVALID_NODE);
}

#[test]
fn stale_child_entries_are_refused_without_change() {
    let mut t = FfiState::new();
    let c = t.node_new_leaf(style()).unwrap();
    let a = t.node_new_leaf(style()).unwrap();
    let b = t.node_new_leaf(style()).unwrap();
    assert_eq!(t.node_add_child(a, c), TAFFY_OK);
    assert_eq!(t.node_add_child(b, c), TAFFY_OK);
    assert_eq!(t.node_remove(c), TAFFY_OK);
    // `a` still lists `c`, which is gone.
    assert_eq!(t.node_child_count(a), Ok(1));
    assert_eq!(t.node_remove(a), TAFFY_ERR_UNKNOWN);
    assert!(t.is_live(a));
    assert_eq!(t.tree_compute_layout(a, definite(100.0), definite(100.0)), TAFFY_ERR_UNKNOWN);
    assert_eq!(t.tree_layouts_dfs(a).err(), Some(TAFFY_ERR_UNKNOWN));
    assert_eq!(t.node_remove_child_at_index(a, 0), Err(TAFFY_ERR_UNKNOWN));
    assert_eq!(t.node_set_children(a, &vec![]), TAFFY_ERR_UNKNOWN);
}

#[test]
fn cycles_are_refused_by_layout() {
    let mut t = FfiState::new();
    let a = t.node_new_leaf(style()).unwrap();
    let b = t.node_new_leaf(style()).unwrap();
    assert_eq!(t.node_add_child(a, b), TAFFY_OK);
    assert_eq!(t.node_add_child(b, a), TAFFY_OK);
    assert_eq!(t.tree_compute_layout(a, definite(100.0), definite(100.0)), TAFFY_ERR_UNKNOWN);
    assert_eq!(t.tree_layouts_dfs(a).err(), Some(TAFFY_ERR_UNKNOWN));
}

#[test]
fn context_is_read_back() {
    let mut t = FfiState::new();
    let a = t.node_new_leaf(style()).unwrap();
    assert_eq!(t.node_set_context(a, 0xdead_beef), TAFFY_OK);
    assert_eq!(t.node_get_context(a), Ok(Some(0xdead_beef)));
    assert_eq!(t.node_set_context(a, 5), TAFFY_OK);
    assert_eq!(t.node_get_context(a), Ok(Some(5)));
}

#[test]
fn clear_drops_every_node() {
    let mut t = FfiState::new();
    let a = t.node_new_leaf(style()).unwrap();
    let _p = t.node_new_with_children(style(), &vec![a]).unwrap();
    assert_eq!(t.clear(), TAFFY_OK);
    assert_eq!(t.total_node_count(), 0);
    assert!(!t.is_live(a));
    assert_eq!(t.node_child_count(a), Err(TAFFY_ERR_INVALID_NODE));
}

#[test]
fn layout_of_sized_children() {
    let mut t = FfiState::new();
    let a = t.node_new_leaf(sized(30.0, 20.0)).unwrap();
    let b = t.node_new_leaf(sized(40.0, 10.0)).unwrap();
    let root = t.node_new_with_children(sized(100.0, 50.0), &vec![a, b]).unwrap();
    assert_eq!(t.tree_compute_layout(root, definite(200.0), definite(200.0)), TAFFY_OK);
    assert_eq!(t.node_dirty(root), Ok(false));
    let l = t.node_layout(root).unwrap();
    assert_eq!(l.size.width, 100.0);
    assert_eq!(l.size.height, 50.0);
    let lb = t.node_layout(b).unwrap();
    assert_eq!(lb.location.x, 30.0);
    assert_eq!(t.node_mark_dirty(a), TAFFY_OK);
    assert_eq!(t.node_dirty(a), Ok(true));
    assert_eq!(t.node_dirty(root), Ok(true));
}

#[test]
fn layout_with_measure_function() {
    let mut t = FfiState::new();
    let leaf = t.node_new_leaf(style()).unwrap();
    assert_eq!(t.node_set_context(leaf, 3), TAFFY_OK);
    let root = t.node_new_with_children(style(), &vec![leaf]).unwrap();
    let mut seen = Vec::new();
    let code = t.tree_compute_layout_with_measure(root, definite(500.0), definite(500.0), |inputs, id, ctx, st| {
        seen.push((id, ctx));
        taffy::compute_leaf_layout(inputs, st.0, |_, _| 0.0, |_, _| taffy::Size { width: 12.0, height: 7.0 })
    });
    assert_eq!(code, TAFFY_OK);
    assert!(seen.contains(&(leaf, Some(3))));
    let l = t.node_layout(leaf).unwrap();
    assert_eq!(l.size.width, 12.0);
    assert_eq!(l.size.height, 7.0);
}

#[test]
fn dfs_records_in_preorder() {
    let mut t = FfiState::new();
    let a1 = t.node_new_leaf(sized(10.0, 10.0)).unwrap();
    let a = t.node_new_with_children(style(), &vec![a1]).unwrap();
    let b = t.node_new_leaf(sized(5.0, 5.0)).unwrap();
    let root = t.node_new_with_children(style(), &vec![a, b]).unwrap();
    assert_eq!(t.tree_compute_layout(root, definite(100.0), definite(100.0)), TAFFY_OK);
    let recs = t.tree_layouts_dfs(root).ok().unwrap();
    let ids: Vec<u64> = recs.iter().map(|r| r.node).collect();
    assert_eq!(ids, vec![root, a, a1, b]);
    let counts: Vec<usize> = recs.iter().map(|r| r.child_count).collect();
    assert_eq!(counts, vec![2, 1, 0, 0]);
    assert_eq!(recs[2].layout.size.width, 10.0);
    assert_eq!(layout_values_required(recs.len()), Some(recs.len() * LAYOUT_RECORD_LEN));
    let leaf_only = t.tree_layouts_dfs(b).ok().unwrap();
    assert_eq!(leaf_only.len(), 1);
    assert_eq!(leaf_only[0].node, b);
}

#[test]
fn rounding_toggles_keep_the_tree() {
    let mut t = FfiState::new();
    let a = t.node_new_leaf(sized(10.4, 10.6)).unwrap();
    assert_eq!(t.disable_rounding(), TAFFY_OK);
    assert_eq!(t.tree_compute_layout(a, definite(100.0), definite(100.0)), TAFFY_OK);
    assert!((t.node_layout(a).unwrap().size.width - 10.4).abs() < 1e-4);
    assert_eq!(t.enable_rounding(), TAFFY_OK);
    assert_eq!(t.tree_compute_layout(a, definite(100.0), definite(100.0)), TAFFY_OK);
    assert_eq!(t.node_layout(a).unwrap().size.width, 10.0);
    assert_eq!(t.total_node_count(), 1);
}

#[test]
fn set_style_marks_dirty() {
    let mut t = FfiState::new();
    let a = t.node_new_leaf(style()).unwrap();
    assert_eq!(t.tree_compute_layout(a, definite(100.0), definite(100.0)), TAFFY_OK);
    assert_eq!(t.node_dirty(a), Ok(false));
    assert_eq!(t.node_set_style(a, Err(ConvertError(TAFFY_ERR_INVALID_ARGUMENT))), TAFFY_ERR_INVALID_ARGUMENT);
    assert_eq!(t.node_dirty(a), Ok(false));
    assert_eq!(t.node_set_style(a, sized(3.0, 3.0)), TAFFY_OK);
    assert_eq!(t.node_dirty(a), Ok(true));
}

#[test]
fn buffer_and_error_codes() {
    assert_eq!(buffer_status(3, 3, true), TAFFY_OK);
    assert_eq!(buffer_status(3, 2, true), TAFFY_ERR_BUFFER_TOO_SMALL);
    assert_eq!(buffer_status(0, 0, false), TAFFY_ERR_BUFFER_TOO_SMALL);
    assert_eq!(layout_values_required(2), Some(12));
    assert_eq!(layout_values_required(usize::MAX), None);
    assert_eq!(map_err(TreeError::ChildIndexOutOfBounds), TAFFY_ERR_INDEX_OUT_OF_BOUNDS);
    assert_eq!(map_err(TreeError::InvalidParentNode), TAFFY_ERR_INVALID_NODE);
    assert_eq!(map_err(TreeError::InvalidChildNode), TAFFY_ERR_INVALID_NODE);
    assert_eq!(map_err(TreeError::InvalidInputNode), TAFFY_ERR_INVALID_NODE);
}

#[test]
fn remove_child_undoes_add_child() {
    let mut t = FfiState::new();
    let a = t.node_new_leaf(style()).unwrap();
    let b = t.node_new_leaf(style()).unwrap();
    let p = t.node_new_with_children(style(), &vec![a]).unwrap();
    assert_eq!(t.node_add_child(p, b), TAFFY_OK);
    assert_eq!(t.node_children(p), Ok(vec![a, b]));
    assert_eq!(t.node_parent(b), Ok(p));
    assert_eq!(t.node_remove_child(p, b), Ok(b));
    assert_eq!(t.node_children(p), Ok(vec![a]));
    assert_eq!(t.node_parent(b), Err(TAFFY_ERR_NO_PARENT));
    assert_eq!(t.node_parent(a), Ok(p));
}

#[test]
fn remove_child_at_index_undoes_insert() {
    let mut t = FfiState::new();
    let a = t.node_new_leaf(style()).unwrap();
    let b = t.node_new_leaf(style()).unwrap();
    let c = t.node_new_leaf(style()).unwrap();
    let p = t.node_new_with_children(style(), &vec![a, b]).unwrap();
    assert_eq!(t.node_insert_child_at_index(p, 1, c), TAFFY_OK);
    assert_eq!(t.node_children(p), Ok(vec![a, c, b]));
    assert_eq!(t.node_remove_child_at_index(p, 1), Ok(c));
    assert_eq!(t.node_children(p), Ok(vec![a, b]));
    assert_eq!(t.node_parent(c), Err(TAFFY_ERR_NO_PARENT));
}

#[test]
fn set_children_unlinks_the_old_list() {
    let mut t = FfiState::new();
    let a = t.node_new_leaf(style()).unwrap();
    let b = t.node_new_leaf(style()).unwrap();
    let c = t.node_new_leaf(style()).unwrap();
    let p = t.node_new_with_children(style(), &vec![a, b]).unwrap();
    assert_eq!(t.node_set_children(p, &vec![c, b]), TAFFY_OK);
    assert_eq!(t.node_children(p), Ok(vec![c, b]));
    assert_eq!(t.node_parent(a), Err(TAFFY_ERR_NO_PARENT));
    assert_eq!(t.node_parent(b), Ok(p));
    assert_eq!(t.node_parent(c), Ok(p));
}

#[test]
fn removing_a_child_node_marks_its_parent_dirty() {
    let mut t = FfiState::new();
    let a = t.node_new_leaf(sized(10.0, 10.0)).unwrap();
    let b = t.node_new_leaf(sized(10.0, 10.0)).unwrap();
    let root = t.node_new_with_children(sized(100.0, 100.0), &vec![a, b]).unwrap();
    assert_eq!(t.tree_compute_layout(root, definite(100.0), definite(100.0)), TAFFY_OK);
    assert_eq!(t.node_dirty(root), Ok(false));
    assert_eq!(t.node_dirty(b), Ok(false));
    assert_eq!(t.node_remove(a), TAFFY_OK);
    assert_eq!(t.node_dirty(root), Ok(true));
    assert_eq!(t.node_dirty(b), Ok(false));
    assert_eq!(t.node_children(root), Ok(vec![b]));
}

#[test]
fn mark_dirty_reaches_the_ancestors() {
    let mut t = FfiState::new();
    let a = t.node_new_leaf(sized(10.0, 10.0)).unwrap();
    let m = t.node_new_with_children(style(), &vec![a]).unwrap();
    let root = t.node_new_with_children(style(), &vec![m]).unwrap();
    assert_eq!(t.tree_compute_layout(root, definite(100.0), definite(100.0)), TAFFY_OK);
    assert_eq!(t.node_dirty(a), Ok(false));
    assert_eq!(t.node_mark_dirty(a), TAFFY_OK);
    assert_eq!(t.node_dirty(a), Ok(true));
    assert_eq!(t.node_dirty(m), Ok(true));
    assert_eq!(t.node_dirty(root), Ok(true));
}

#[test]
fn a_tree_made_with_capacity_rounds_layouts() {
    let mut t = FfiState::with_capacity(4);
    let a = t.node_new_leaf(sized(10.4, 10.6)).unwrap();
    assert_eq!(t.tree_compute_layout(a, definite(100.0), definite(100.0)), TAFFY_OK);
    assert_eq!(t.node_layout(a).unwrap().size.width, 10.0);
    assert_eq!(t.node_layout(a).unwrap().size.height, 11.0);
}

#[test]
fn dfs_records_hold_each_nodes_stored_layout() {
    let mut t = FfiState::new();
    let a = t.node_new_leaf(sized(30.0, 20.0)).unwrap();
    let b = t.node_new_leaf(sized(40.0, 10.0)).unwrap();
    let root = t.node_new_with_children(sized(100.0, 50.0), &vec![a, b]).unwrap();
    assert_eq!(t.tree_compute_layout(root, definite(200.0), definite(200.0)), TAFFY_OK);
    let recs = t.tree_layouts_dfs(root).ok().unwrap();
    for r in &recs {
        assert_eq!(r.layout, t.node_layout(r.node).unwrap());
    }
    assert_eq!(recs[2].layout.location.x, 30.0);
    assert_eq!(recs[2].layout.size.width, 40.0);
}

#[test]
fn layout_with_measure_leaves_the_root_clean() {
    let mut t = FfiState::new();
    let leaf = t.node_new_leaf(style()).unwrap();
    let root = t.node_new_with_children(style(), &vec![leaf]).unwrap();
    assert_eq!(t.node_dirty(root), Ok(true));
    let code = t.tree_compute_layout_with_measure(root, definite(50.0), definite(50.0), |inputs, _, _, st| {
        taffy::compute_leaf_layout(inputs, st.0, |_, _| 0.0, |_, _| taffy::Size { width: 3.0, height: 4.0 })
    });
    assert_eq!(code, TAFFY_OK);
    assert_eq!(t.node_dirty(root), Ok(false));
    let bogus = root ^ 0x5555_0000_0000;
    let code = t.tree_compute_layout_with_measure(bogus, definite(50.0), definite(50.0), |_, _, _, _| {
        panic!("measure must not run for an unknown root")
    });
    assert_eq!(code, TAFFY_ERR_INVALID_NODE);
}

#[test]
fn node_count_tallies_creations_and_removals() {
    let mut t = FfiState::new();
    let a = t.node_new_leaf(style()).unwrap();
    let b = t.node_new_leaf(style()).unwrap();
    let p = t.node_new_with_children(style(), &vec![a]).unwrap();
    assert_eq!(t.total_node_count(), 3);
    assert_eq!(t.node_add_child(p, b), TAFFY_OK);
    assert_eq!(t.node_remove_child(p, a), Ok(a));
    assert_eq!(t.total_node_count(), 3);
    assert_eq!(t.node_remove(b), TAFFY_OK);
    assert_eq!(t.node_remove(b), TAFFY_ERR_INVALID_NODE);
    assert_eq!(t.total_node_count(), 2);
    assert_eq!(t.clear(), TAFFY_OK);
    let _c = t.node_new_leaf(style()).unwrap();
    assert_eq!(t.total_node_count(), 1);
}

#[test]
fn layout_leaves_nodes_outside_the_subtree_alone() {
    let mut t = FfiState::new();
    let a = t.node_new_leaf(sized(10.0, 10.0)).unwrap();
    let other = t.node_new_leaf(sized(20.0, 20.0)).unwrap();
    assert_eq!(t.tree_compute_layout(a, definite(100.0), definite(100.0)), TAFFY_OK);
    assert_eq!(t.node_dirty(a), Ok(false));
    assert_eq!(t.node_dirty(other), Ok(true));
    assert_eq!(t.node_layout(other).unwrap().size.width, 0.0);
    assert_eq!(t.tree_compute_layout(other, definite(100.0), definite(100.0)), TAFFY_OK);
    assert_eq!(t.node_dirty(a), Ok(false));
    assert_eq!(t.node_layout(a).unwrap().size.width, 10.0);
}

#[test]
fn measured_layout_uses_width_and_height_as_given() {
    let mut t = FfiState::new();
    let root = t.node_new_leaf(style()).unwrap();
    let code = t.tree_compute_layout_with_measure(root, definite(80.0), definite(30.0), |inputs, _, _, st| {
        taffy::compute_leaf_layout(inputs, st.0, |_, _| 0.0, |known, avail| taffy::Size {
            width: known.width.unwrap_or(avail.width.into_option().unwrap_or(0.0)),
            height: known.height.unwrap_or(avail.height.into_option().unwrap_or(0.0)),
        })
    });
    assert_eq!(code, TAFFY_OK);
    let l = t.node_layout(root).unwrap();
    assert_eq!(l.size.width, 80.0);
    assert_eq!(l.size.height, 30.0);
}
