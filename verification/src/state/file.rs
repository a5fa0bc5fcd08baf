use vstd::prelude::*;
use crate::text::push_str;
use crate::file::DiagramFile;
use crate::state::canvas::CanvasState;

verus! {

/// The file being edited and the message shown in the status bar.
pub struct FileState {
    pub current_file: Option<String>,
    pub status_message: Option<String>,
}

impl FileState {
    /// No file, no message.
    pub fn new() -> (f: Self)
        ensures
            f.current_file is None,
            f.status_message is None,
    {
        FileState { current_file: None, status_message: None }
    }

    /// Shows `message`.
    pub fn set_status_message(&mut self, message: String)
        ensures
            final(self).status_message == Some(message),
            final(self).current_file == old(self).current_file,
    {
        self.status_message = Some(message);
    }

    /// Hides the message.
    pub fn clear_status_message(&mut self)
        ensures
            final(self).status_message is None,
            final(self).current_file == old(self).current_file,
    {
        self.status_message = None;
    }

    /// Records that the diagram was written to `path`: it becomes the current
    /// file and the status says so.
    pub fn saved_to(&mut self, path: &str)
        ensures
            final(self).current_file matches Some(p) && p@ == path@,
            final(self).status_message matches Some(m) && m@ == "Saved to "@ + path@,
    {
        self.current_file = Some(String::from_str(path));
        let mut msg = String::from_str("Saved to ");
        push_str(&mut msg, path);
        self.status_message = Some(msg);
    }

    /// Records that the diagram was read from `path`: it becomes the current
    /// file, and the status says so unless the load is silent.
    pub fn loaded_from(&mut self, path: &str, show_message: bool)
        ensures
            final(self).current_file matches Some(p) && p@ == path@,
            show_message ==> (final(self).status_message matches Some(m) && m@ == "Loaded from "@ + path@),
            !show_message ==> final(self).status_message == old(self).status_message,
    {
        self.current_file = Some(String::from_str(path));
        if show_message {
            let mut msg = String::from_str("Loaded from ");
            push_str(&mut msg, path);
            self.status_message = Some(msg);
        }
    }

    /// Takes over the diagram read from `path` and says so.
    pub fn load_from_file(&mut self, canvas: &mut CanvasState, path: &str, file: DiagramFile)
        ensures
            final(canvas).spec_elements() == file.elements@,
            final(canvas).spec_next_id() == file.next_id,
            final(self).current_file matches Some(p) && p@ == path@,
            final(self).status_message matches Some(m) && m@ == "Loaded from "@ + path@,
    {
        self.load_from_file_with_message(canvas, path, file, true);
    }

    /// Takes over the diagram read from `path` without a message (the first load).
    pub fn load_from_file_silent(&mut self, canvas: &mut CanvasState, path: &str, file: DiagramFile)
        ensures
            final(canvas).spec_elements() == file.elements@,
            final(canvas).spec_next_id() == file.next_id,
            final(self).current_file matches Some(p) && p@ == path@,
            final(self).status_message == old(self).status_message,
    {
        self.load_from_file_with_message(canvas, path, file, false);
    }

    /// Takes over the diagram read from `path`, saying so when `show_message`.
    fn load_from_file_with_message(&mut self, canvas: &mut CanvasState, path: &str, file: DiagramFile, show_message: bool)
        ensures
            final(canvas).spec_elements() == file.elements@,
            final(canvas).spec_next_id() == file.next_id,
            final(self).current_file matches Some(p) && p@ == path@,
            show_message ==> (final(self).status_message matches Some(m) && m@ == "Loaded from "@ + path@),
            !show_message ==> final(self).status_message == old(self).status_message,
    {
        canvas.load_from_file(file);
        self.loaded_from(path, show_message);
    }

    /// Records that reading or writing failed with `error`.
    pub fn failed(&mut self, error: &str)
        ensures
            final(self).status_message matches Some(m) && m@ == "Error: "@ + error@,
            final(self).current_file == old(self).current_file,
    {
        let mut msg = String::from_str("Error: ");
        push_str(&mut msg, error);
        self.status_message = Some(msg);
    }
}

impl Default for FileState {
    fn default() -> (f: Self)
        ensures
            f.current_file is None,
            f.status_message is None,
    {
        FileState::new()
    }
}

} // verus!
