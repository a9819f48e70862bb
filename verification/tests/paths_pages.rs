//! The paginated panels: exact page arithmetic, page flips, and slot
//! fetches against the graph.

use gfaestus::graph::GraphIndex;
use gfaestus::graph::PathId;
use gfaestus::graph::PathRecord;
use gfaestus::graph::StepEntry;
use gfaestus::graph::NodeId;
use gfaestus::paths::PathDetails;
use gfaestus::paths::PathList;
use gfaestus::paths::PathListMsg;
use gfaestus::paths::PathListSlot;
use gfaestus::paths::StepList;
use gfaestus::paths::last_page;
use gfaestus::paths::page_bounds;

fn demo_graph() -> GraphIndex {
    let mut g = GraphIndex::new();
    g.insert_node(1, b"AC".to_vec());
    g.insert_node(2, b"GT".to_vec());
    for id in [5u64, 3, 4, 1, 2] {
        let steps = vec![
            StepEntry { node: NodeId(1), reverse: false, step_ix: 1, base_offset: 0 },
            StepEntry { node: NodeId(2), reverse: true, step_ix: 2, base_offset: 2 },
        ];
        let name = format!("path{}", id).into_bytes();
        g.insert_path(PathRecord { id: PathId(id), name, steps, base_count: 4 });
    }
    g
}

#[test]
fn last_page_has_no_trailing_empty_page() {
    // A list that fills its pages exactly ends on a full page.
    assert_eq!(last_page(0, 5), 0);
    assert_eq!(last_page(1, 5), 0);
    assert_eq!(last_page(5, 5), 0);
    assert_eq!(last_page(6, 5), 1);
    assert_eq!(last_page(10, 5), 1);
    assert_eq!(last_page(11, 5), 2);
}

#[test]
fn page_bounds_clamp_to_the_list() {
    assert_eq!(page_bounds(0, 5, 12), (0, 5));
    assert_eq!(page_bounds(1, 5, 12), (5, 10));
    assert_eq!(page_bounds(2, 5, 12), (10, 12));
    // A page past the end falls back to the last page.
    assert_eq!(page_bounds(9, 5, 12), (10, 12));
    assert_eq!(page_bounds(0, 5, 0), (0, 0));
}

#[test]
fn path_list_pages_through_sorted_paths() {
    let graph = demo_graph();
    let mut list = PathList::new(&graph, 2, None);
    assert_eq!(list.page, 0);
    assert_eq!(list.page_count, 2);
    assert!(list.update_slots);
    list.update_slots(&graph);
    assert!(!list.update_slots);
    // Paths sorted by id: the first page shows 1 and 2.
    assert_eq!(list.slots[0].path_id, Some(PathId(1)));
    assert_eq!(list.slots[0].path_name, b"path1".to_vec());
    assert_eq!(list.slots[0].step_count, 2);
    assert_eq!(list.slots[0].base_count, 4);
    assert_eq!(list.slots[0].head, 1);
    assert_eq!(list.slots[0].tail, 2);
    assert_eq!(list.slots[1].path_id, Some(PathId(2)));

    list.apply_msg(PathListMsg::NextPage);
    assert_eq!(list.page, 1);
    assert!(list.update_slots);
    list.update_slots(&graph);
    assert_eq!(list.slots[0].path_id, Some(PathId(3)));
    assert_eq!(list.slots[1].path_id, Some(PathId(4)));

    // The last page holds a single path; the other slot shows nothing.
    list.apply_msg(PathListMsg::SetPage(99));
    assert_eq!(list.page, 2);
    list.update_slots(&graph);
    assert_eq!(list.slots[0].path_id, Some(PathId(5)));
    assert_eq!(list.slots[1].path_id, None);

    list.apply_msg(PathListMsg::NextPage);
    assert_eq!(list.page, 2);
    list.apply_msg(PathListMsg::PrevPage);
    assert_eq!(list.page, 1);
}

#[test]
fn slot_fetches_only_when_the_asked_path_changes() {
    let graph = demo_graph();
    let mut slot = PathListSlot::empty();
    assert_eq!(slot.fetch(&graph), Some(()));
    slot.set_path_id(Some(PathId(3)));
    assert_eq!(slot.fetch(&graph), Some(()));
    assert_eq!(slot.path_name, b"path3".to_vec());
    // Asking for a path the graph does not know reports the failure.
    slot.set_path_id(Some(PathId(77)));
    assert_eq!(slot.fetch(&graph), None);
}

#[test]
fn step_list_pages_through_one_paths_steps() {
    let graph = demo_graph();
    let mut steps = StepList::new(1);
    assert_eq!(steps.update_for_path(&graph, PathId(4)), Some(()));
    assert_eq!(steps.fetched_path_id, Some(PathId(4)));
    assert_eq!(steps.steps.len(), 2);
    assert_eq!(steps.page_count, 1);
    assert_eq!(steps.visible_range(), (0, 1));
    steps.apply_msg(PathListMsg::NextPage);
    assert_eq!(steps.visible_range(), (1, 2));
    // A second update for the same path changes nothing.
    steps.apply_msg(PathListMsg::SetPage(0));
    assert_eq!(steps.update_for_path(&graph, PathId(4)), Some(()));
    assert_eq!(steps.page, 0);
    // An unknown path is reported and leaves the list alone.
    assert_eq!(steps.update_for_path(&graph, PathId(99)), None);
    assert_eq!(steps.fetched_path_id, Some(PathId(4)));
}

#[test]
fn details_panel_starts_empty() {
    let details = PathDetails::new();
    assert_eq!(details.path_details.path_id, None);
    assert_eq!(details.step_list.page_size, 15);
}

#[test]
fn graph_stats_count_everything() {
    let graph = demo_graph();
    let stats = graph.stats();
    assert_eq!(graph.node_count(), 2);
    assert_eq!(graph.path_count(), 5);
    assert_eq!(graph.path_at(0).id, PathId(5));
    assert_eq!(stats.node_count, 2);
    assert_eq!(stats.path_count, 5);
    assert_eq!(stats.total_len, 4);
    assert_eq!(stats.edge_count, 0);
}
