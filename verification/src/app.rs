//! Top-level application state and the messages that mutate it.
//!
//! Completed background tasks and modal resolutions never touch state
//! directly: they emit [`AppMsg`] values on the application message queue,
//! which the frame loop drains and applies here once per tick.

use vstd::prelude::*;

use crate::geometry::Point;
use crate::geometry::ScreenDims;
use crate::graph::NodeId;

verus! {

/// A high-level application event, produced by input handling, completed
/// tasks and modal resolutions.
#[derive(Clone, Copy, Debug, PartialEq, Eq, Structural)]
pub enum AppMsg {
    SelectNode(Option<NodeId>),
    HoverNode(Option<NodeId>),
    /// Navigate the camera to a node; routed to the main view, which turns
    /// it into a camera command.
    GotoNode(NodeId),
}

/// Configuration toggles for the selection-outline render passes.
#[derive(Clone, Copy, Debug, PartialEq, Eq, Structural)]
pub enum AppConfigMsg {
    ToggleSelectionEdgeDetect,
    ToggleSelectionEdgeBlur,
    ToggleSelectionOutline,
}

/// Application state owned by the render thread.
#[derive(Clone, Copy, Debug, PartialEq, Eq, Structural)]
pub struct App {
    pub mouse_pos: Point,
    pub screen_dims: ScreenDims,
    pub hover_node: Option<NodeId>,
    pub selected_node: Option<NodeId>,
    pub selection_edge_detect: bool,
    pub selection_edge_blur: bool,
    pub selection_edge: bool,
}

impl App {
    /// Fresh state: nothing hovered or selected, all selection-outline
    /// passes enabled.
    pub fn new(mouse_pos: Point, screen_dims: ScreenDims) -> (app: App)
        ensures
            app == (App {
                mouse_pos,
                screen_dims,
                hover_node: None::<NodeId>,
                selected_node: None::<NodeId>,
                selection_edge_detect: true,
                selection_edge_blur: true,
                selection_edge: true,
            }),
    {
        App {
            mouse_pos,
            screen_dims,
            hover_node: None,
            selected_node: None,
            selection_edge_detect: true,
            selection_edge_blur: true,
            selection_edge: true,
        }
    }

    /// The node currently under the pointer, if any.
    pub fn hover_node(&self) -> (r: Option<NodeId>)
        ensures
            r == self.hover_node,
    {
        self.hover_node
    }

    /// The node currently selected, if any.
    pub fn selected_node(&self) -> (r: Option<NodeId>)
        ensures
            r == self.selected_node,
    {
        self.selected_node
    }

    /// The current viewport dimensions.
    pub fn dims(&self) -> (r: ScreenDims)
        ensures
            r == self.screen_dims,
    {
        self.screen_dims
    }

    /// The pointer position last written by input handling.
    pub fn mouse_pos(&self) -> (r: Point)
        ensures
            r == self.mouse_pos,
    {
        self.mouse_pos
    }

    /// Record the pointer position for this frame.
    pub fn update_mouse_pos(&mut self, pos: Point)
        ensures
            *final(self) == (App { mouse_pos: pos, ..*old(self) }),
    {
        self.mouse_pos = pos;
    }

    /// Record a viewport resize.
    pub fn update_dims(&mut self, screen_dims: ScreenDims)
        ensures
            *final(self) == (App { screen_dims, ..*old(self) }),
    {
        self.screen_dims = screen_dims;
    }

    /// Apply one drained application message: selection and hover updates
    /// land here; navigation messages leave the state untouched and are
    /// routed to the main view by the frame loop.
    pub fn apply_app_msg(&mut self, msg: &AppMsg)
        ensures
            *final(self) == match *msg {
                AppMsg::SelectNode(id) => App { selected_node: id, ..*old(self) },
                AppMsg::HoverNode(id) => App { hover_node: id, ..*old(self) },
                AppMsg::GotoNode(_) => *old(self),
            },
    {
        match msg {
            AppMsg::SelectNode(id) => self.selected_node = *id,
            AppMsg::HoverNode(id) => self.hover_node = *id,
            AppMsg::GotoNode(_) => (),
        }
    }

    /// Apply one drained configuration message by flipping its toggle.
    pub fn apply_app_config_msg(&mut self, msg: &AppConfigMsg)
        ensures
            *final(self) == match *msg {
                AppConfigMsg::ToggleSelectionEdgeDetect => App {
                    selection_edge_detect: !old(self).selection_edge_detect,
                    ..*old(self)
                },
                AppConfigMsg::ToggleSelectionEdgeBlur => App {
                    selection_edge_blur: !old(self).selection_edge_blur,
                    ..*old(self)
                },
                AppConfigMsg::ToggleSelectionOutline => App {
                    selection_edge: !old(self).selection_edge,
                    ..*old(self)
                },
            },
    {
        match msg {
            AppConfigMsg::ToggleSelectionEdgeDetect => {
                self.selection_edge_detect = !self.selection_edge_detect;
            },
            AppConfigMsg::ToggleSelectionEdgeBlur => {
                self.selection_edge_blur = !self.selection_edge_blur;
            },
            AppConfigMsg::ToggleSelectionOutline => {
                self.selection_edge = !self.selection_edge;
            },
        }
    }
}

} // verus!
