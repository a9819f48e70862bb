//! The overlay list and the overlay creator.
//!
//! Overlays color the graph's nodes; a new one is computed by a script run
//! as a background task. The creator here is the coordination half: it
//! owns the task handle, reports script failures as a status message, and
//! on success emits a [`OverlayCreatorMsg`] for the render side to upload.
//! Running the script and painting the list are the application's work.

use vstd::prelude::*;

use crate::task::TaskHandle;
use crate::task::TaskState;

verus! {

/// What kind of data an overlay holds.
#[derive(Clone, Copy, Debug, PartialEq, Eq, Structural)]
pub enum OverlayKind {
    Rgb,
    Value,
}

/// One color cell of an overlay.
#[derive(Clone, Copy, Debug, PartialEq, Eq, Structural)]
pub struct NodeColor {
    pub red: u8,
    pub green: u8,
    pub blue: u8,
}

/// A computed overlay: one color per node, in node order.
#[derive(Clone, Debug, PartialEq)]
pub struct OverlayData {
    pub colors: Vec<NodeColor>,
}

/// Updates to the overlay list.
#[derive(Clone, Debug, PartialEq)]
pub enum OverlayListMsg {
    InsertOverlay { overlay_id: usize, name: String },
    RemoveOverlay { overlay_id: usize },
}

/// A finished overlay on its way to the renderer.
#[derive(Clone, Debug, PartialEq)]
pub enum OverlayCreatorMsg {
    NewOverlay { name: String, data: OverlayData },
}

/// Why a script run produced no overlay.
#[derive(Clone, Copy, Debug, PartialEq, Eq, Structural)]
pub enum ScriptError {
    /// The script file was not found.
    NotFound,
    /// The script engine reported an error.
    Evaluation,
}

/// The named overlays the list panel shows, ordered by overlay id.
pub struct OverlayList {
    pub overlay_names: Vec<(usize, OverlayKind, String)>,
}

impl OverlayList {
    /// An empty list.
    pub fn new() -> (l: OverlayList)
        ensures
            l.overlay_names@ == Seq::<(usize, OverlayKind, String)>::empty(),
    {
        OverlayList { overlay_names: Vec::new() }
    }

    /// Replace the whole list with the names the render side reports.
    pub fn populate_names(&mut self, names: Vec<(usize, OverlayKind, String)>)
        ensures
            final(self).overlay_names@ == names@,
    {
        self.overlay_names = names;
    }
}

/// The creator panel's coordination state: the typed name and script path,
/// the last status message, and the handle of the running script task.
pub struct OverlayCreator {
    pub name: String,
    pub script_path_input: String,
    pub script_error: String,
    pub pending: Option<TaskHandle<Result<OverlayData, ScriptError>>>,
}

impl OverlayCreator {
    /// A creator with nothing typed and no script running.
    pub fn new() -> (c: OverlayCreator)
        ensures
            c.name@ == Seq::<char>::empty(),
            c.script_path_input@ == Seq::<char>::empty(),
            c.script_error@ == Seq::<char>::empty(),
            c.pending is None,
    {
        OverlayCreator {
            name: String::new(),
            script_path_input: String::new(),
            script_error: String::new(),
            pending: None,
        }
    }

    /// Record the typed overlay name.
    pub fn set_name(&mut self, name: String)
        ensures
            final(self).name == name,
            final(self).script_path_input == old(self).script_path_input,
            final(self).script_error == old(self).script_error,
            final(self).pending == old(self).pending,
    {
        self.name = name;
    }

    /// Record the typed script path.
    pub fn set_script_path(&mut self, path: String)
        ensures
            final(self).script_path_input == path,
            final(self).name == old(self).name,
            final(self).script_error == old(self).script_error,
            final(self).pending == old(self).pending,
    {
        self.script_path_input = path;
    }

    /// Submit the script run: at most one runs at a time, so the button
    /// does nothing while a handle is live.
    pub fn submit_script(&mut self) -> (submitted: bool)
        ensures
            submitted == (old(self).pending is None),
            final(self).name == old(self).name,
            final(self).script_path_input == old(self).script_path_input,
            final(self).script_error == old(self).script_error,
            if old(self).pending is None {
                final(self).pending is Some && final(self).pending.unwrap()@ is Pending
            } else {
                final(self).pending == old(self).pending
            },
    {
        match &self.pending {
            Some(_) => false,
            None => {
                self.pending = Some(TaskHandle::new());
                true
            },
        }
    }

    /// The worker pool's side: deliver the script's result into the handle.
    pub fn deliver_result(&mut self, result: Result<OverlayData, ScriptError>)
        requires
            old(self).pending is Some,
            old(self).pending.unwrap()@ is Pending,
        ensures
            final(self).pending is Some && final(self).pending.unwrap()@ == TaskState::Ready(
                result,
            ),
            final(self).name == old(self).name,
            final(self).script_path_input == old(self).script_path_input,
            final(self).script_error == old(self).script_error,
    {
        let mut taken: Option<TaskHandle<Result<OverlayData, ScriptError>>> = None;
        core::mem::swap(&mut self.pending, &mut taken);
        match taken {
            Some(mut handle) => {
                handle.on_complete(result);
                self.pending = Some(handle);
            },
            None => {
                proof {
                    assert(false);
                }
            },
        }
    }

    /// The once-per-frame poll. A ready success clears the typed fields,
    /// reports success and emits the overlay message; a ready failure only
    /// reports why; a still-running or absent task does nothing. Errors of
    /// the script never escape as anything but the status message.
    pub fn poll_script(&mut self) -> (msg: Option<OverlayCreatorMsg>)
        ensures
            match old(self).pending {
                Some(handle) => match handle@ {
                    TaskState::Ready(result) => {
                        &&& final(self).pending is None
                        &&& match result {
                            Ok(data) => {
                                &&& msg == Some(
                                    OverlayCreatorMsg::NewOverlay { name: old(self).name, data },
                                )
                                &&& final(self).name@ == Seq::<char>::empty()
                                &&& final(self).script_path_input@ == Seq::<char>::empty()
                                &&& final(self).script_error@ == "Success"@
                            },
                            Err(ScriptError::NotFound) => {
                                &&& msg is None
                                &&& final(self).script_error@ == "Script not found"@
                                &&& final(self).name == old(self).name
                                &&& final(self).script_path_input == old(self).script_path_input
                            },
                            Err(ScriptError::Evaluation) => {
                                &&& msg is None
                                &&& final(self).script_error@ == "Script error, see console"@
                                &&& final(self).name == old(self).name
                                &&& final(self).script_path_input == old(self).script_path_input
                            },
                        }
                    },
                    _ => msg is None && *final(self) == *old(self),
                },
                None => msg is None && *final(self) == *old(self),
            },
    {
        let ready = match &self.pending {
            Some(handle) => handle.is_ready(),
            None => false,
        };
        if !ready {
            return None;
        }
        let mut taken: Option<TaskHandle<Result<OverlayData, ScriptError>>> = None;
        core::mem::swap(&mut self.pending, &mut taken);
        match taken {
            Some(mut handle) => {
                match handle.take() {
                    Some(Ok(data)) => {
                        let mut name = String::new();
                        core::mem::swap(&mut self.name, &mut name);
                        self.script_path_input = String::new();
                        self.script_error = success_message();
                        Some(OverlayCreatorMsg::NewOverlay { name, data })
                    },
                    Some(Err(ScriptError::NotFound)) => {
                        self.script_error = not_found_message();
                        None
                    },
                    Some(Err(ScriptError::Evaluation)) => {
                        self.script_error = evaluation_message();
                        None
                    },
                    None => None,
                }
            },
            None => None,
        }
    }
}

/// The status text of a successful script run.
fn success_message() -> (s: String)
    ensures
        s@ == "Success"@,
{
    let m: &str = "Success";
    m.to_owned()
}

/// The status text of a missing script file.
fn not_found_message() -> (s: String)
    ensures
        s@ == "Script not found"@,
{
    let m: &str = "Script not found";
    m.to_owned()
}

/// The status text of a script evaluation failure.
fn evaluation_message() -> (s: String)
    ensures
        s@ == "Script error, see console"@,
{
    let m: &str = "Script error, see console";
    m.to_owned()
}

} // verus!
