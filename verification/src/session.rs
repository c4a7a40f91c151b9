//! The editor as a whole: loading a document, dispatching actions, and what
//! a save writes.

use vstd::prelude::*;
use vstd::utf8::{decode_utf8, valid_utf8};
use crate::action::Action;
use crate::error::EditorError;
use crate::model::{TypeEntry, TypeView, types_view};
use crate::parse::{parse_types, parsed_types};
use crate::serialize::{document_events, serialize_types};
use crate::state::{
    Editor,
    EditorFocus,
    EditorView,
    FileSelection,
    FileSource,
    indices_view,
    snapshots_view,
};
use crate::text::join2;
use crate::xml_io::{xml_bytes, xml_tokens};

verus! {

/// What the caller has to do after an action.
#[derive(Clone, Copy, Debug, PartialEq, Eq, Structural)]
pub enum EditorRequest {
    /// Nothing.
    Idle,
    /// Write the document to the file it was loaded from.
    Save,
}

/// Mathematical value of a [`FileWrite`].
pub struct FileWriteView {
    pub path: Seq<char>,
    pub content: Seq<char>,
}

/// Some text to be written to a path of the editor's source.
#[derive(Debug, PartialEq, Eq)]
pub struct FileWrite {
    pub path: String,
    pub content: String,
}

impl View for FileWrite {
    type V = FileWriteView;

    open spec fn view(&self) -> FileWriteView {
        FileWriteView { path: self.path@, content: self.content@ }
    }
}

/// The path of the backup that is written before `path` is overwritten.
pub open spec fn backup_path_of(path: Seq<char>) -> Seq<char> {
    path + ".bak"@
}

impl EditorView {
    /// The state after a document was loaded: cursor at the start, nothing
    /// selected, empty history, no edit in progress.
    pub open spec fn loaded(path: Seq<char>, source: FileSource, types: Seq<TypeView>) -> EditorView {
        EditorView {
            path: Some(path),
            source,
            types,
            selected_type: 0,
            selected_field: 0,
            multi_select: false,
            selected_types: Seq::empty(),
            undo_stack: Seq::empty(),
            redo_stack: Seq::empty(),
            focus: EditorFocus::TypeList,
            editing_target: None,
            pending_add: None,
            input_buffer: Seq::empty(),
            status: "Loaded file"@,
        }
    }

    /// The state after an action while text is being captured.
    pub open spec fn stepped_editing(self, action: Action) -> EditorView {
        match action {
            Action::Input(c) => EditorView { input_buffer: self.input_buffer.push(c), ..self },
            Action::Backspace => if self.input_buffer.len() > 0 {
                EditorView { input_buffer: self.input_buffer.drop_last(), ..self }
            } else {
                self
            },
            Action::Activate => if self.input_continues() {
                self.input_applied()
            } else {
                self.input_applied().editing_stopped()
            },
            Action::Cancel => (EditorView { input_buffer: Seq::empty(), ..self }).editing_stopped().with_status(
                "Edit cancelled"@,
            ),
            _ => self,
        }
    }

    /// The state after an action while a list is in focus.
    pub open spec fn stepped_browsing(self, action: Action) -> EditorView {
        match action {
            Action::Up => self.moved(-1),
            Action::Down => self.moved(1),
            Action::Left => EditorView { focus: EditorFocus::TypeList, ..self },
            Action::Right => if self.types.len() > 0 {
                EditorView { focus: EditorFocus::FieldList, ..self }
            } else {
                self
            },
            Action::PgUp => self.moved(-10),
            Action::PgDown => self.moved(10),
            Action::Activate => if self.multi_select {
                self.with_status("Multi-select: editing disabled"@)
            } else {
                self.editing_begun()
            },
            Action::Add => self.added(),
            Action::AddAttribute => self.attribute_added(),
            Action::Copy => if self.multi_select {
                self.with_status("Multi-select: editing disabled"@)
            } else {
                self.copied()
            },
            Action::Delete => if self.multi_select {
                self.multi_deleted()
            } else {
                self.deleted()
            },
            Action::Undo => self.undone(),
            Action::Redo => self.redone(),
            Action::Save => if self.path is None {
                self.with_status("No file loaded"@)
            } else {
                self
            },
            Action::ToggleSelect => self.selection_toggled(),
            Action::Cancel => self.selection_cleared(),
            _ => self,
        }
    }

    /// The state after an action.
    pub open spec fn stepped(self, action: Action) -> EditorView {
        if self.focus == EditorFocus::Editing {
            self.stepped_editing(action)
        } else {
            self.stepped_browsing(action)
        }
    }

    /// What an action asks of the caller: a save, where a document is
    /// loaded and Save is pressed outside an edit.
    pub open spec fn request(self, action: Action) -> EditorRequest {
        if self.focus != EditorFocus::Editing && action == Action::Save && self.path is Some {
            EditorRequest::Save
        } else {
            EditorRequest::Idle
        }
    }

    /// The status line after a save went through.
    pub open spec fn saved_status(self) -> Seq<char> {
        match self.path {
            Some(path) => match self.source {
                FileSource::Local => "Saved "@ + path,
                FileSource::Remote => "Saved remote "@ + path,
            },
            None => "No file loaded"@,
        }
    }
}

impl Editor {
    /// Replaces the document by `types`, read from `selection`, and resets
    /// cursor, multi-selection, history and any edit in progress.
    pub fn load_types(&mut self, selection: FileSelection, types: Vec<TypeEntry>)
        ensures
            final(self)@ == EditorView::loaded(selection.path@, selection.source, types_view(types@)),
            final(self).wf(),
    {
        self.path = Some(selection.path);
        self.source = selection.source;
        self.types = types;
        self.selected_type = 0;
        self.selected_field = 0;
        self.multi_select = false;
        self.selected_types = Vec::new();
        self.undo_stack = Vec::new();
        self.redo_stack = Vec::new();
        self.focus = EditorFocus::TypeList;
        self.editing_target = None;
        self.pending_add = None;
        self.input_buffer.clear();
        self.status = "Loaded file".to_owned();
        assert(indices_view(self.selected_types@) =~= Seq::empty());
        assert(snapshots_view(self.undo_stack@) =~= Seq::empty());
        assert(snapshots_view(self.redo_stack@) =~= Seq::empty());
    }

    /// Loads the document that `content` holds. Where `content` is not
    /// well-formed XML, the editor stays as it is and the error is
    /// `InvalidData`.
    pub fn load(&mut self, selection: FileSelection, content: &str) -> (r: Result<(), EditorError>)
        requires
            old(self).wf(),
        ensures
            match xml_tokens(content@) {
                Some(tokens) => r is Ok && final(self)@ == EditorView::loaded(
                    selection.path@,
                    selection.source,
                    parsed_types(tokens),
                ),
                None => r matches Err(EditorError::InvalidData(message)) && "XML parse error: "@.is_prefix_of(
                    message@,
                ) && *final(self) == *old(self),
            },
            final(self).wf(),
    {
        match parse_types(content) {
            Ok(types) => {
                self.load_types(selection, types);
                Ok(())
            },
            Err(error) => {
                let text = error.message();
                let message = join2("XML parse error: ", text.as_str());
                assert(message@.subrange(0, "XML parse error: "@.len() as int) =~= "XML parse error: "@);
                Err(EditorError::InvalidData(message))
            },
        }
    }

    /// Applies one action, and tells what the caller has to do.
    pub fn handle_action(&mut self, action: Action) -> (r: EditorRequest)
        requires
            old(self).wf(),
        ensures
            final(self)@ == old(self)@.stepped(action),
            r == old(self)@.request(action),
            final(self).wf(),
    {
        match self.focus {
            EditorFocus::Editing => {
                match action {
                    Action::Input(c) => self.input_buffer.push(c),
                    Action::Backspace => {
                        self.input_buffer.pop();
                    },
                    Action::Activate => {
                        let continue_editing = self.apply_input();
                        if !continue_editing {
                            self.stop_editing();
                        }
                    },
                    Action::Cancel => {
                        self.input_buffer.clear();
                        self.stop_editing();
                        self.status = "Edit cancelled".to_owned();
                    },
                    _ => {},
                }
                EditorRequest::Idle
            },
            _ => {
                match action {
                    Action::Up => self.move_selection(-1),
                    Action::Down => self.move_selection(1),
                    Action::Left => {
                        self.focus = EditorFocus::TypeList;
                    },
                    Action::Right => {
                        if self.types.len() > 0 {
                            self.focus = EditorFocus::FieldList;
                        }
                    },
                    Action::PgUp => self.move_selection(-10),
                    Action::PgDown => self.move_selection(10),
                    Action::Activate => {
                        if self.multi_select {
                            self.status = "Multi-select: editing disabled".to_owned();
                        } else {
                            self.begin_editing();
                        }
                    },
                    Action::Add => self.add(),
                    Action::AddAttribute => self.add_attribute(),
                    Action::Copy => {
                        if self.multi_select {
                            self.status = "Multi-select: editing disabled".to_owned();
                        } else {
                            self.copy();
                        }
                    },
                    Action::Delete => {
                        if self.multi_select {
                            self.delete_multi();
                        } else {
                            self.delete();
                        }
                    },
                    Action::Undo => self.undo(),
                    Action::Redo => self.redo(),
                    Action::Save => {
                        if self.path.is_none() {
                            self.status = "No file loaded".to_owned();
                        } else {
                            return EditorRequest::Save;
                        }
                    },
                    Action::ToggleSelect => self.toggle_type_selection(),
                    Action::Cancel => self.clear_multi_select(),
                    _ => {},
                }
                EditorRequest::Idle
            },
        }
    }

    /// The backup that a save writes first: the content that the file had,
    /// under the file's path with `.bak` behind it. Where the file had no
    /// readable content, or no file is loaded, there is no backup.
    pub fn backup(&self, prior: Option<String>) -> (r: Option<FileWrite>)
        ensures
            match (self@.path, prior) {
                (Some(path), Some(content)) => r matches Some(write) && write@ == (FileWriteView {
                    path: backup_path_of(path),
                    content: content@,
                }),
                _ => r is None,
            },
    {
        match (&self.path, prior) {
            (Some(path), Some(content)) => Some(
                FileWrite { path: join2(path.as_str(), ".bak"), content },
            ),
            _ => None,
        }
    }

    /// What a save writes to the file: the document as XML text. `Ok(None)`
    /// where no file is loaded.
    pub fn save(&self) -> (r: Result<Option<FileWrite>, EditorError>)
        ensures
            match self@.path {
                None => r == Ok::<Option<FileWrite>, EditorError>(None),
                Some(path) => match xml_bytes(document_events(self@.types)) {
                    Some(bytes) => if valid_utf8(bytes) {
                        r matches Ok(Some(write)) && write@ == (FileWriteView {
                            path,
                            content: decode_utf8(bytes),
                        })
                    } else {
                        r matches Err(EditorError::InvalidData(_))
                    },
                    None => r matches Err(EditorError::Io(_)),
                },
            },
    {
        match &self.path {
            None => Ok(None),
            Some(path) => match serialize_types(&self.types) {
                Ok(content) => Ok(Some(FileWrite { path: path.clone(), content })),
                Err(error) => Err(error),
            },
        }
    }

    /// Records on the status line how a save ended.
    pub fn finish_save(&mut self, outcome: Result<(), EditorError>)
        requires
            old(self).wf(),
        ensures
            final(self)@ == old(self)@.with_status(
                match outcome {
                    Ok(_) => old(self)@.saved_status(),
                    Err(error) => "Save failed: "@ + error.message_spec(),
                },
            ),
            final(self).wf(),
    {
        match outcome {
            Ok(_) => {
                self.status = match &self.path {
                    Some(path) => match self.source {
                        FileSource::Local => join2("Saved ", path.as_str()),
                        FileSource::Remote => join2("Saved remote ", path.as_str()),
                    },
                    None => "No file loaded".to_owned(),
                };
            },
            Err(error) => {
                let text = error.message();
                self.status = join2("Save failed: ", text.as_str());
            },
        }
    }
}

/// Every action that changes the document, other than undo and redo, first
/// puts the state it found on the undo stack and empties the redo stack;
/// every other action leaves document and history as they are.
pub proof fn lemma_changes_are_framed(state: EditorView, action: Action)
    requires
        state.wf(),
        action != Action::Undo,
        action != Action::Redo,
    ensures
        crate::history::framed(state, state.stepped(action)) || ({
            &&& state.stepped(action).types == state.types
            &&& state.stepped(action).undo_stack == state.undo_stack
            &&& state.stepped(action).redo_stack == state.redo_stack
        }),
{
}

} // verus!
