//! The file picker's navigation state.
//!
//! Reading directories is the window loop's work; it hands the picker each
//! directory's entries as plain values. The picker itself is the verified
//! part: where the browse stands, the history the back button walks, which
//! entry is highlighted, and what a double-click or confirmation decides.

use vstd::prelude::*;

verus! {

/// One entry of the listed directory.
#[derive(Clone, Debug, PartialEq)]
pub struct DirEntryInfo {
    pub name: String,
    pub is_dir: bool,
}

/// What activating an entry (double-click or confirmation) decides.
#[derive(Clone, Copy, Debug, PartialEq, Eq, Structural)]
pub enum Activation {
    /// The entry is a directory: descend into it.
    Descend,
    /// The entry is a file: pick it.
    Pick,
}

/// The picker's state between frames.
pub struct FilePicker {
    pub pwd: String,
    pub current_dir: String,
    pub current_dir_text: String,
    pub highlighted: Option<usize>,
    pub selected_path: Option<String>,
    pub dir_list: Vec<DirEntryInfo>,
    pub history: Vec<String>,
}

impl FilePicker {
    /// A picker opened at a starting directory, with that directory's
    /// entries already listed.
    pub fn new(pwd: String, entries: Vec<DirEntryInfo>) -> (p: FilePicker)
        ensures
            p.pwd == pwd,
            p.current_dir == pwd,
            p.current_dir_text == pwd,
            p.highlighted is None,
            p.selected_path is None,
            p.dir_list == entries,
            p.history@ == Seq::<String>::empty(),
    {
        let current_dir = pwd.clone();
        let current_dir_text = pwd.clone();
        FilePicker {
            pwd,
            current_dir,
            current_dir_text,
            highlighted: None,
            selected_path: None,
            dir_list: entries,
            history: Vec::new(),
        }
    }

    /// The path a double-clicked file left behind, if any.
    pub fn selected_path(&self) -> (r: Option<&String>)
        ensures
            match r {
                Some(p) => self.selected_path == Some(*p),
                None => self.selected_path is None,
            },
    {
        self.selected_path.as_ref()
    }

    /// Forget everything but the starting directory: the next listing is
    /// the caller's to provide.
    pub fn reset(&mut self)
        ensures
            final(self).pwd == old(self).pwd,
            final(self).current_dir == old(self).pwd,
            final(self).current_dir_text == old(self).current_dir_text,
            final(self).highlighted is None,
            final(self).selected_path is None,
            final(self).dir_list@ == Seq::<DirEntryInfo>::empty(),
            final(self).history@ == Seq::<String>::empty(),
    {
        self.current_dir = self.pwd.clone();
        self.highlighted = None;
        self.selected_path = None;
        self.dir_list.clear();
        self.history.clear();
    }

    /// Move the browse to a directory whose entries the caller just read;
    /// a user-initiated move records where it came from, the back button's
    /// own move does not.
    pub fn goto_dir(&mut self, new_dir: String, entries: Vec<DirEntryInfo>, add_history: bool)
        ensures
            final(self).pwd == old(self).pwd,
            final(self).current_dir == new_dir,
            final(self).current_dir_text == new_dir,
            final(self).highlighted is None,
            final(self).selected_path is None,
            final(self).dir_list == entries,
            final(self).history@ == if add_history {
                old(self).history@.push(old(self).current_dir)
            } else {
                old(self).history@
            },
    {
        if add_history {
            let mut previous = String::new();
            core::mem::swap(&mut self.current_dir, &mut previous);
            self.history.push(previous);
        }
        self.current_dir_text = new_dir.clone();
        self.current_dir = new_dir;
        self.highlighted = None;
        self.selected_path = None;
        self.dir_list = entries;
    }

    /// The back button's first half: where to go, popped off the history.
    /// The caller reads that directory and finishes with [`Self::goto_dir`].
    pub fn pop_history(&mut self) -> (r: Option<String>)
        ensures
            r == if old(self).history@.len() == 0 {
                None::<String>
            } else {
                Some(old(self).history@.last())
            },
            final(self).history@ == if old(self).history@.len() == 0 {
                old(self).history@
            } else {
                old(self).history@.drop_last()
            },
            final(self).pwd == old(self).pwd,
            final(self).current_dir == old(self).current_dir,
            final(self).current_dir_text == old(self).current_dir_text,
            final(self).highlighted == old(self).highlighted,
            final(self).selected_path == old(self).selected_path,
            final(self).dir_list == old(self).dir_list,
    {
        self.history.pop()
    }

    /// Record the typed path text.
    pub fn set_dir_text(&mut self, text: String)
        ensures
            final(self).current_dir_text == text,
            final(self).pwd == old(self).pwd,
            final(self).current_dir == old(self).current_dir,
            final(self).highlighted == old(self).highlighted,
            final(self).selected_path == old(self).selected_path,
            final(self).dir_list == old(self).dir_list,
            final(self).history == old(self).history,
    {
        self.current_dir_text = text;
    }

    /// Highlight one listed entry.
    pub fn highlight(&mut self, ix: usize)
        requires
            ix < old(self).dir_list@.len(),
        ensures
            final(self).highlighted == Some(ix),
            final(self).pwd == old(self).pwd,
            final(self).current_dir == old(self).current_dir,
            final(self).current_dir_text == old(self).current_dir_text,
            final(self).selected_path == old(self).selected_path,
            final(self).dir_list == old(self).dir_list,
            final(self).history == old(self).history,
    {
        self.highlighted = Some(ix);
    }

    /// What activating a listed entry decides: descend into a directory,
    /// pick a file.
    pub fn activate(&self, ix: usize) -> (r: Activation)
        requires
            ix < self.dir_list@.len(),
        ensures
            r == if self.dir_list@[ix as int].is_dir {
                Activation::Descend
            } else {
                Activation::Pick
            },
    {
        if self.dir_list[ix].is_dir {
            Activation::Descend
        } else {
            Activation::Pick
        }
    }

    /// Record the picked file.
    pub fn choose_path(&mut self, path: String)
        ensures
            final(self).selected_path == Some(path),
            final(self).pwd == old(self).pwd,
            final(self).current_dir == old(self).current_dir,
            final(self).current_dir_text == old(self).current_dir_text,
            final(self).highlighted == old(self).highlighted,
            final(self).dir_list == old(self).dir_list,
            final(self).history == old(self).history,
    {
        self.selected_path = Some(path);
    }
}

} // verus!
