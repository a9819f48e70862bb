//! The modal broker and the "go to node" flow end to end: open a dialog,
//! type an identifier, commit, and resolve it against the graph.

use gfaestus::app::AppMsg;
use gfaestus::channel::OneShotRecv;
use gfaestus::graph::GraphIndex;
use gfaestus::graph::NodeId;
use gfaestus::graph::goto_node_resolve;
use gfaestus::graph::parse_node_id;
use gfaestus::modal::ModalBroker;
use gfaestus::modal::ModalInput;
use gfaestus::modal::ModalState;

fn demo_graph() -> GraphIndex {
    let mut g = GraphIndex::new();
    g.insert_node(42, b"GATTACA".to_vec());
    g.insert_node(7, b"ACGT".to_vec());
    g
}

#[test]
fn typed_identifier_of_an_existing_node_emits_navigation() {
    let graph = demo_graph();
    let mut broker = ModalBroker::new();
    broker.open(Vec::new());
    assert!(matches!(broker.state, ModalState::AwaitingInput));

    // The dialog auto-focuses its text box exactly on the first frame.
    assert!(broker.frame_input(ModalInput::Edit(b"4".to_vec())));
    assert!(!broker.frame_input(ModalInput::Edit(b"42".to_vec())));
    assert_eq!(broker.poll_result(), OneShotRecv::Pending);
    assert!(!broker.frame_input(ModalInput::Commit));
    assert!(matches!(broker.state, ModalState::Resolved));

    let received = broker.poll_result();
    assert_eq!(received, OneShotRecv::Value(b"42".to_vec()));
    let msg = goto_node_resolve(received, &graph);
    assert_eq!(msg, Some(AppMsg::GotoNode(NodeId(42))));

    broker.reset();
    assert!(matches!(broker.state, ModalState::Idle));
}

#[test]
fn missing_node_emits_nothing_and_raises_no_error() {
    let graph = demo_graph();
    let msg = goto_node_resolve(OneShotRecv::Value(b"43".to_vec()), &graph);
    assert_eq!(msg, None);
}

#[test]
fn malformed_identifier_is_silently_discarded() {
    let graph = demo_graph();
    assert_eq!(goto_node_resolve(OneShotRecv::Value(b"4x".to_vec()), &graph), None);
    assert_eq!(goto_node_resolve(OneShotRecv::Value(Vec::new()), &graph), None);
}

#[test]
fn dismissed_modal_aborts_without_side_effects() {
    let graph = demo_graph();
    let mut broker = ModalBroker::new();
    broker.open(Vec::new());
    broker.frame_input(ModalInput::Cancel);
    let received = broker.poll_result();
    assert_eq!(received, OneShotRecv::Canceled);
    assert_eq!(goto_node_resolve(received, &graph), None);
}

#[test]
fn parser_accepts_exactly_decimal_u64() {
    assert_eq!(parse_node_id(b"0"), Some(0));
    assert_eq!(parse_node_id(b"42"), Some(42));
    assert_eq!(parse_node_id(b"007"), Some(7));
    assert_eq!(parse_node_id(b"18446744073709551615"), Some(u64::MAX));
    // One past the largest representable value overflows.
    assert_eq!(parse_node_id(b"18446744073709551616"), None);
    assert_eq!(parse_node_id(b""), None);
    assert_eq!(parse_node_id(b"-1"), None);
    assert_eq!(parse_node_id(b"4 2"), None);
}
