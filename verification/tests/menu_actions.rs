//! The context menu: aggregation of received entries, the offered action
//! list, and the effect each action computes.

use gfaestus::context::ContextAction;
use gfaestus::context::ContextEntry;
use gfaestus::graph::GraphIndex;
use gfaestus::graph::NodeId;
use gfaestus::graph::PathId;
use gfaestus::graph::PathRecord;
use gfaestus::menu::ContextMenu;
use gfaestus::textnum::sorted_unique_u64;
use gfaestus::textnum::u64_to_decimal;

fn demo_graph() -> GraphIndex {
    let mut g = GraphIndex::new();
    g.insert_node(1, b"AAA".to_vec());
    g.insert_node(3, b"GGG".to_vec());
    g.insert_node(42, b"GATTACA".to_vec());
    g.insert_path(PathRecord {
        id: PathId(2),
        name: b"chromosome".to_vec(),
        steps: Vec::new(),
        base_count: 0,
    });
    g
}

#[test]
fn received_entries_aggregate_with_last_kind_winning() {
    let mut menu = ContextMenu::new();
    menu.push_entry(ContextEntry::Node(NodeId(1)));
    menu.push_entry(ContextEntry::Node(NodeId(42)));
    menu.push_entry(ContextEntry::Selection { nodes: vec![NodeId(3)] });
    menu.recv_contexts();
    assert_eq!(menu.contexts.node, Some(NodeId(42)));
    assert_eq!(menu.contexts.path, None);
    assert!(menu.contexts.has_selection);
    assert_eq!(menu.contexts.selection_nodes, Some(vec![NodeId(3)]));
    assert!(menu.contexts.is_not_empty());
    // Aggregation starts fresh each time.
    menu.recv_contexts();
    assert!(!menu.contexts.is_not_empty());
}

#[test]
fn menu_offers_what_the_contexts_allow() {
    let mut menu = ContextMenu::new();
    assert_eq!(menu.menu_actions(), vec![ContextAction::PanToNode]);
    menu.push_entry(ContextEntry::Node(NodeId(42)));
    menu.push_entry(ContextEntry::Path(PathId(2)));
    menu.recv_contexts();
    assert_eq!(
        menu.menu_actions(),
        vec![
            ContextAction::CopyNodeId,
            ContextAction::CopyNodeSeq,
            ContextAction::CopyPathName,
            ContextAction::PanToNode,
        ],
    );
}

#[test]
fn copy_node_id_renders_the_decimal_identifier() {
    let graph = demo_graph();
    let mut menu = ContextMenu::new();
    menu.push_entry(ContextEntry::Node(NodeId(42)));
    menu.recv_contexts();
    let out = menu.process(ContextAction::CopyNodeId, &graph);
    assert_eq!(out.clipboard, Some(b"42".to_vec()));
    assert!(!out.open_goto_modal);
}

#[test]
fn copy_node_seq_copies_the_sequence() {
    let graph = demo_graph();
    let mut menu = ContextMenu::new();
    menu.push_entry(ContextEntry::Node(NodeId(42)));
    menu.recv_contexts();
    let out = menu.process(ContextAction::CopyNodeSeq, &graph);
    assert_eq!(out.clipboard, Some(b"GATTACA".to_vec()));
}

#[test]
fn copy_path_name_copies_the_name() {
    let graph = demo_graph();
    let mut menu = ContextMenu::new();
    menu.push_entry(ContextEntry::Path(PathId(2)));
    menu.recv_contexts();
    let out = menu.process(ContextAction::CopyPathName, &graph);
    assert_eq!(out.clipboard, Some(b"chromosome".to_vec()));
}

#[test]
fn copy_subgraph_sorts_and_deduplicates_the_selection() {
    let graph = demo_graph();
    let mut menu = ContextMenu::new();
    menu.push_entry(ContextEntry::Selection {
        nodes: vec![NodeId(3), NodeId(1), NodeId(3)],
    });
    menu.recv_contexts();
    let out = menu.process(ContextAction::CopySubgraphGfa, &graph);
    assert_eq!(out.clipboard, Some(b"1\tAAA\n3\tGGG\n".to_vec()));
}

#[test]
fn actions_without_their_context_do_nothing() {
    let graph = demo_graph();
    let menu = ContextMenu::new();
    let out = menu.process(ContextAction::CopyNodeId, &graph);
    assert_eq!(out.clipboard, None);
    assert!(!out.open_goto_modal);
    let out = menu.process(ContextAction::CopyPathName, &graph);
    assert_eq!(out.clipboard, None);
}

#[test]
fn pan_to_node_opens_the_modal() {
    let graph = demo_graph();
    let menu = ContextMenu::new();
    let out = menu.process(ContextAction::PanToNode, &graph);
    assert_eq!(out.clipboard, None);
    assert!(out.open_goto_modal);
}

#[test]
fn decimal_rendering_and_sorting_helpers_are_exact() {
    assert_eq!(u64_to_decimal(0), b"0".to_vec());
    assert_eq!(u64_to_decimal(42), b"42".to_vec());
    assert_eq!(u64_to_decimal(18446744073709551615), b"18446744073709551615".to_vec());
    assert_eq!(sorted_unique_u64(&vec![3, 1, 3, 2, 1]), vec![1, 2, 3]);
    assert_eq!(sorted_unique_u64(&Vec::new()), Vec::<u64>::new());
}
