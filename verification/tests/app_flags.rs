//! Application state, the selection bitmap, the file picker and the
//! overlay panels.

use gfaestus::app::App;
use gfaestus::app::AppConfigMsg;
use gfaestus::app::AppMsg;
use gfaestus::geometry::Point;
use gfaestus::geometry::ScreenDims;
use gfaestus::graph::NodeId;
use gfaestus::node_flags::LayoutFlags;
use gfaestus::node_flags::NodeFlag;
use gfaestus::node_flags::NodeFlags;
use gfaestus::overlays::NodeColor;
use gfaestus::overlays::OverlayCreator;
use gfaestus::overlays::OverlayCreatorMsg;
use gfaestus::overlays::OverlayData;
use gfaestus::overlays::OverlayKind;
use gfaestus::overlays::OverlayList;
use gfaestus::overlays::ScriptError;
use gfaestus::picker::Activation;
use gfaestus::picker::DirEntryInfo;
use gfaestus::picker::FilePicker;
use std::collections::HashSet;

#[test]
fn app_messages_update_hover_and_selection() {
    let mut app = App::new(Point { x: 0, y: 0 }, ScreenDims { width: 100, height: 100 });
    assert_eq!(app.hover_node(), None);
    app.apply_app_msg(&AppMsg::HoverNode(Some(NodeId(5))));
    app.apply_app_msg(&AppMsg::SelectNode(Some(NodeId(6))));
    assert_eq!(app.hover_node(), Some(NodeId(5)));
    assert_eq!(app.selected_node(), Some(NodeId(6)));
    // Navigation is routed elsewhere; the state stays put.
    app.apply_app_msg(&AppMsg::GotoNode(NodeId(7)));
    assert_eq!(app.selected_node(), Some(NodeId(6)));
    app.apply_app_msg(&AppMsg::SelectNode(None));
    assert_eq!(app.selected_node(), None);
}

#[test]
fn config_messages_toggle_their_flag() {
    let mut app = App::new(Point { x: 0, y: 0 }, ScreenDims { width: 100, height: 100 });
    assert!(app.selection_edge_detect);
    app.apply_app_config_msg(&AppConfigMsg::ToggleSelectionEdgeDetect);
    assert!(!app.selection_edge_detect);
    app.apply_app_config_msg(&AppConfigMsg::ToggleSelectionEdgeBlur);
    assert!(!app.selection_edge_blur);
    app.apply_app_config_msg(&AppConfigMsg::ToggleSelectionOutline);
    assert!(!app.selection_edge);
    app.apply_app_config_msg(&AppConfigMsg::ToggleSelectionOutline);
    assert!(app.selection_edge);
}

#[test]
fn points_build_from_coordinates() {
    assert_eq!(Point::zero(), Point { x: 0, y: 0 });
    assert_eq!(Point::new(1, 2), Point { x: 1, y: 2 });
}

#[test]
fn dims_and_mouse_updates_are_recorded() {
    let mut app = App::new(Point { x: 1, y: 2 }, ScreenDims { width: 100, height: 100 });
    app.update_dims(ScreenDims { width: 800, height: 600 });
    app.update_mouse_pos(Point { x: 10, y: 20 });
    assert_eq!(app.dims(), ScreenDims { width: 800, height: 600 });
    assert_eq!(app.mouse_pos(), Point { x: 10, y: 20 });
}

#[test]
fn node_flag_bits_combine() {
    assert_eq!(NodeFlags::from(NodeFlag::Empty), NodeFlags(0));
    assert_eq!(NodeFlags::from(NodeFlag::Selected), NodeFlags(1));
    assert_eq!(NodeFlags(0).bitor(NodeFlag::Selected), NodeFlags(1));
    assert_eq!(NodeFlags(1).bitand(NodeFlag::Empty), NodeFlags(0));
    let mut flags = NodeFlags(0);
    flags.bitor_assign(NodeFlag::Selected);
    assert_eq!(flags, NodeFlags(1));
    flags.bitand_assign(NodeFlag::Empty);
    assert_eq!(flags, NodeFlags(0));
    assert!(matches!(NodeFlag::default(), NodeFlag::Empty));
}

#[test]
fn selection_bitmap_mirrors_the_selection() {
    let mut flags = LayoutFlags::new();
    let mut buffer: Vec<u32> = vec![9; 4];
    flags.clear_buffer(&mut buffer);
    assert_eq!(buffer, vec![0, 0, 0, 0]);

    flags.add_select_one(2, &mut buffer);
    assert_eq!(buffer, vec![0, 1, 0, 0]);
    // Selecting the same node again writes nothing.
    flags.add_select_one(2, &mut buffer);
    assert_eq!(buffer, vec![0, 1, 0, 0]);

    let mut replacement: HashSet<u64> = HashSet::new();
    replacement.insert(1);
    replacement.insert(4);
    flags.update_selection(replacement, &mut buffer);
    assert_eq!(buffer, vec![1, 0, 0, 1]);

    flags.clear();
    flags.write_latest_buffer(&mut buffer);
    assert_eq!(buffer, vec![0, 0, 0, 0]);
}

#[test]
fn picker_walks_directories_and_picks_files() {
    let root_entries = vec![
        DirEntryInfo { name: "data".to_string(), is_dir: true },
        DirEntryInfo { name: "readme.txt".to_string(), is_dir: false },
    ];
    let mut picker = FilePicker::new("/home".to_string(), root_entries);
    assert!(picker.selected_path().is_none());
    assert_eq!(picker.activate(0), Activation::Descend);
    assert_eq!(picker.activate(1), Activation::Pick);

    let data_entries = vec![DirEntryInfo { name: "graph.gfa".to_string(), is_dir: false }];
    picker.goto_dir("/home/data".to_string(), data_entries, true);
    assert_eq!(picker.current_dir, "/home/data".to_string());
    picker.highlight(0);
    picker.choose_path("/home/data/graph.gfa".to_string());
    assert_eq!(picker.selected_path(), Some(&"/home/data/graph.gfa".to_string()));

    // The back button pops where we came from.
    assert_eq!(picker.pop_history(), Some("/home".to_string()));
    assert_eq!(picker.pop_history(), None);

    picker.reset();
    assert_eq!(picker.current_dir, "/home".to_string());
    assert!(picker.selected_path().is_none());
    assert!(picker.dir_list.is_empty());
}

#[test]
fn overlay_list_replaces_its_names() {
    let mut list = OverlayList::new();
    list.populate_names(vec![(0, OverlayKind::Rgb, "depth".to_string())]);
    assert_eq!(list.overlay_names.len(), 1);
    list.populate_names(vec![
        (0, OverlayKind::Rgb, "depth".to_string()),
        (1, OverlayKind::Value, "gc".to_string()),
    ]);
    assert_eq!(list.overlay_names[1].2, "gc".to_string());
}

#[test]
fn overlay_creator_reports_success_and_emits_the_overlay() {
    let mut creator = OverlayCreator::new();
    creator.set_name("depth".to_string());
    creator.set_script_path("depth.scm".to_string());
    assert!(creator.submit_script());
    // A second submission while one runs is refused.
    assert!(!creator.submit_script());
    assert_eq!(creator.poll_script(), None);

    let data = OverlayData { colors: vec![NodeColor { red: 1, green: 2, blue: 3 }] };
    creator.deliver_result(Ok(data.clone()));
    let msg = creator.poll_script();
    assert_eq!(msg, Some(OverlayCreatorMsg::NewOverlay { name: "depth".to_string(), data }));
    assert_eq!(creator.script_error, "Success".to_string());
    assert_eq!(creator.name, String::new());
    assert_eq!(creator.script_path_input, String::new());
}

#[test]
fn overlay_creator_reports_a_missing_script() {
    let mut creator = OverlayCreator::new();
    creator.set_name("depth".to_string());
    assert!(creator.submit_script());
    creator.deliver_result(Err(ScriptError::NotFound));
    assert_eq!(creator.poll_script(), None);
    assert_eq!(creator.script_error, "Script not found".to_string());
    // The typed name survives a failure for re-entry.
    assert_eq!(creator.name, "depth".to_string());
}

#[test]
fn overlay_creator_reports_an_evaluation_failure() {
    let mut creator = OverlayCreator::new();
    assert!(creator.submit_script());
    creator.deliver_result(Err(ScriptError::Evaluation));
    assert_eq!(creator.poll_script(), None);
    assert_eq!(creator.script_error, "Script error, see console".to_string());
    // The handle is consumed; a new script may run.
    assert!(creator.submit_script());
}
