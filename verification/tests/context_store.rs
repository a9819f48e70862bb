//! The context store's tri-state lifecycle, gated materialization and the
//! context-gated action registry.

use gfaestus::context::ContextAction;
use gfaestus::context::ContextAction_;
use gfaestus::context::ContextEntry;
use gfaestus::context::ContextMgr;
use gfaestus::context::InitState;
use gfaestus::context::TypeKey;
use gfaestus::graph::NodeId;
use gfaestus::graph::PathId;

#[test]
fn store_stays_empty_while_the_menu_flag_is_down() {
    let mut mgr = ContextMgr::new();
    // Producers check the flag; a push on a flagless frame is dropped.
    mgr.produce_context(ContextEntry::Node(NodeId(7)));
    mgr.begin_frame();
    assert!(matches!(mgr.init, InitState::Initializing));
    mgr.begin_frame();
    assert!(matches!(mgr.init, InitState::Ready));
    mgr.begin_frame();
    assert!(mgr.frame_context().get(TypeKey::Node).is_none());
    assert!(mgr.frame_context().get(TypeKey::Path).is_none());
    assert!(mgr.frame_context().get(TypeKey::Selection).is_none());
}

#[test]
fn materialized_store_holds_the_last_push_per_kind() {
    let mut mgr = ContextMgr::new();
    mgr.begin_frame();
    mgr.begin_frame();
    mgr.open_context_menu();
    assert!(mgr.wants_context());
    mgr.produce_context(ContextEntry::Node(NodeId(1)));
    mgr.produce_context(ContextEntry::Path(PathId(2)));
    mgr.produce_context(ContextEntry::Node(NodeId(3)));
    mgr.begin_frame();
    // The key set equals the kinds pushed, each with its last value.
    assert_eq!(mgr.frame_context().get(TypeKey::Node), Some(&ContextEntry::Node(NodeId(3))));
    assert_eq!(mgr.frame_context().get(TypeKey::Path), Some(&ContextEntry::Path(PathId(2))));
    assert!(mgr.frame_context().get(TypeKey::Selection).is_none());
    // The flag clears with the drain; the next frame materializes nothing.
    assert!(!mgr.wants_context());
    mgr.produce_context(ContextEntry::Node(NodeId(9)));
    mgr.begin_frame();
    assert_eq!(mgr.frame_context().get(TypeKey::Node), Some(&ContextEntry::Node(NodeId(3))));
}

#[test]
fn reopening_the_menu_replaces_the_contents_in_place() {
    let mut mgr = ContextMgr::new();
    mgr.begin_frame();
    mgr.begin_frame();
    mgr.open_context_menu();
    mgr.produce_context(ContextEntry::Node(NodeId(1)));
    mgr.produce_context(ContextEntry::Path(PathId(2)));
    mgr.begin_frame();
    mgr.close_context_menu();
    mgr.open_context_menu();
    mgr.produce_context(ContextEntry::Node(NodeId(5)));
    mgr.begin_frame();
    // Only this opening's pushes remain.
    assert_eq!(mgr.frame_context().get(TypeKey::Node), Some(&ContextEntry::Node(NodeId(5))));
    assert!(mgr.frame_context().get(TypeKey::Path).is_none());
}

#[test]
fn only_actions_whose_required_kinds_are_present_are_offered() {
    let mut mgr = ContextMgr::new();
    mgr.register_action("show everything".to_string(), ContextAction_::new(vec![], ContextAction::PanToNode));
    mgr.register_action(
        "needs node and path".to_string(),
        ContextAction_::new(vec![TypeKey::Node, TypeKey::Path], ContextAction::CopyNodeId),
    );
    mgr.begin_frame();
    mgr.begin_frame();
    mgr.open_context_menu();
    mgr.produce_context(ContextEntry::Node(NodeId(1)));
    mgr.begin_frame();
    // Store holds {Node}: the empty requirement is a subset, {Node, Path}
    // is not; only the first action is offered.
    let offered = mgr.applicable_actions();
    assert_eq!(offered, vec!["show everything".to_string()]);
}

#[test]
fn registering_a_name_again_replaces_the_action() {
    let mut mgr = ContextMgr::new();
    mgr.register_action("copy".to_string(), ContextAction_::new(vec![TypeKey::Node], ContextAction::CopyNodeId));
    mgr.register_action("copy".to_string(), ContextAction_::new(vec![], ContextAction::CopyNodeSeq));
    mgr.begin_frame();
    mgr.begin_frame();
    mgr.begin_frame();
    // The replacement needs nothing, so it is offered against the empty
    // store; the name appears once.
    let offered = mgr.applicable_actions();
    assert_eq!(offered, vec!["copy".to_string()]);
}

#[test]
fn applicability_is_a_subset_test() {
    let mut mgr = ContextMgr::new();
    let action = ContextAction_::new(vec![TypeKey::Node], ContextAction::CopyNodeId);
    assert!(!action.is_applicable(mgr.frame_context()));
    assert_eq!(action.apply_action(mgr.frame_context()), None);
    mgr.begin_frame();
    mgr.begin_frame();
    mgr.open_context_menu();
    mgr.produce_context(ContextEntry::Node(NodeId(4)));
    mgr.begin_frame();
    assert!(action.is_applicable(mgr.frame_context()));
    assert_eq!(action.apply_action(mgr.frame_context()), Some(ContextAction::CopyNodeId));
}

#[test]
fn kind_names_resolve_to_the_latest_registration() {
    let mut mgr = ContextMgr::new();
    assert!(mgr.kind_name(TypeKey::Node).is_none());
    mgr.set_kind_name(TypeKey::Node, "node".to_string());
    mgr.set_kind_name(TypeKey::Node, "graph node".to_string());
    assert_eq!(mgr.kind_name(TypeKey::Node), Some(&"graph node".to_string()));
    assert!(mgr.kind_name(TypeKey::Selection).is_none());
}

#[test]
fn showing_the_menu_before_ready_is_a_no_op() {
    let mut mgr = ContextMgr::new();
    assert!(!mgr.can_show());
    mgr.open_context_menu();
    mgr.begin_frame();
    assert!(!mgr.can_show());
    mgr.begin_frame();
    assert!(mgr.can_show());
}
