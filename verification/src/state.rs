//! The editor's state: document, cursor, multi-selection, history and the
//! text being captured, with its mathematical view and its invariant.

use vstd::prelude::*;
use crate::model::{Field, FieldView, TypeEntry, TypeView, clone_fields, fields_view, types_view};
use crate::text::optional_text;

verus! {

/// Which pane receives navigation, or whether text is being captured.
#[derive(Clone, Copy, Debug, PartialEq, Eq, Structural)]
pub enum EditorFocus {
    TypeList,
    FieldList,
    Editing,
}

/// What the captured text will be written to.
#[derive(Clone, Copy, Debug, PartialEq, Eq, Structural)]
pub enum EditTarget {
    TypeName,
    FieldName,
    FieldValue,
}

/// Where a document comes from and goes to.
#[derive(Clone, Copy, Debug, PartialEq, Eq, Structural)]
pub enum FileSource {
    Local,
    Remote,
}

/// A file picked for editing: its path as shown to the user, and its source.
#[derive(Debug, PartialEq, Eq)]
pub struct FileSelection {
    pub path: String,
    pub source: FileSource,
}

/// Mathematical value of a [`PendingAddKind`].
pub enum PendingKindView {
    Field,
    Attribute { element: Seq<char>, index: nat },
}

/// What a deferred add will append to every target type.
#[derive(Debug, PartialEq, Eq)]
pub enum PendingAddKind {
    /// An element field.
    Field,
    /// An attribute of the given element occurrence.
    Attribute { element: String, index: usize },
}

impl View for PendingAddKind {
    type V = PendingKindView;

    open spec fn view(&self) -> PendingKindView {
        match *self {
            PendingAddKind::Field => PendingKindView::Field,
            PendingAddKind::Attribute { element, index } => PendingKindView::Attribute {
                element: element@,
                index: index as nat,
            },
        }
    }
}

impl Clone for PendingAddKind {
    fn clone(&self) -> (r: Self)
        ensures
            r == *self,
    {
        match self {
            PendingAddKind::Field => PendingAddKind::Field,
            PendingAddKind::Attribute { element, index } => PendingAddKind::Attribute {
                element: element.clone(),
                index: *index,
            },
        }
    }
}

/// Mathematical value of a [`PendingAdd`].
pub struct PendingView {
    pub kind: PendingKindView,
    pub name: Option<Seq<char>>,
}

/// A deferred add: what to append, and the name once it has been entered.
#[derive(Debug, PartialEq, Eq)]
pub struct PendingAdd {
    pub kind: PendingAddKind,
    pub name: Option<String>,
}

impl View for PendingAdd {
    type V = PendingView;

    open spec fn view(&self) -> PendingView {
        PendingView { kind: self.kind@, name: optional_text(self.name) }
    }
}

/// The mathematical value of an optional deferred add.
pub open spec fn pending_view(pending: Option<PendingAdd>) -> Option<PendingView> {
    match pending {
        Some(p) => Some(p@),
        None => None,
    }
}

/// A list of positions as natural numbers.
pub open spec fn indices_view(indices: Seq<usize>) -> Seq<nat> {
    indices.map_values(|i: usize| i as nat)
}

/// Mathematical value of an [`EditorSnapshot`]: what undo and redo keep of
/// an editor state.
pub struct SnapshotView {
    pub types: Seq<TypeView>,
    pub selected_type: nat,
    pub selected_field: nat,
    pub multi_select: bool,
    pub selected_types: Seq<nat>,
    pub focus: EditorFocus,
}

/// The cursor points into the document: at a type if there is one, and at
/// one of its fields if it has one; otherwise it is zero.
pub open spec fn cursor_ok(types: Seq<TypeView>, selected_type: nat, selected_field: nat) -> bool {
    if types.len() == 0 {
        selected_type == 0 && selected_field == 0
    } else {
        &&& selected_type < types.len()
        &&& (selected_field == 0 || selected_field < types[selected_type as int].fields.len())
    }
}

/// The multi-selection holds positions of the document in ascending order,
/// and holds one exactly when multi-select mode is on.
pub open spec fn selection_ok(count: nat, multi_select: bool, selected_types: Seq<nat>) -> bool {
    &&& multi_select <==> selected_types.len() > 0
    &&& forall|i: int| 0 <= i < selected_types.len() ==> selected_types[i] < count
    &&& forall|i: int, j: int| 0 <= i < j < selected_types.len() ==> selected_types[i] < selected_types[j]
}

impl SnapshotView {
    /// A snapshot can be restored: cursor and multi-selection fit its
    /// document, and it is not in the middle of an edit.
    pub open spec fn wf(self) -> bool {
        &&& cursor_ok(self.types, self.selected_type, self.selected_field)
        &&& selection_ok(self.types.len(), self.multi_select, self.selected_types)
        &&& self.focus != EditorFocus::Editing
    }
}

/// A copy of document, cursor, multi-selection and focus.
#[derive(Debug, PartialEq, Eq)]
pub struct EditorSnapshot {
    pub types: Vec<TypeEntry>,
    pub selected_type: usize,
    pub selected_field: usize,
    pub multi_select: bool,
    pub selected_types: Vec<usize>,
    pub focus: EditorFocus,
}

impl View for EditorSnapshot {
    type V = SnapshotView;

    open spec fn view(&self) -> SnapshotView {
        SnapshotView {
            types: types_view(self.types@),
            selected_type: self.selected_type as nat,
            selected_field: self.selected_field as nat,
            multi_select: self.multi_select,
            selected_types: indices_view(self.selected_types@),
            focus: self.focus,
        }
    }
}

/// The mathematical values of a stack of snapshots, bottom first.
pub open spec fn snapshots_view(stack: Seq<EditorSnapshot>) -> Seq<SnapshotView> {
    stack.map_values(|s: EditorSnapshot| s@)
}

/// Mathematical value of an [`Editor`].
pub struct EditorView {
    pub path: Option<Seq<char>>,
    pub source: FileSource,
    pub types: Seq<TypeView>,
    pub selected_type: nat,
    pub selected_field: nat,
    pub multi_select: bool,
    pub selected_types: Seq<nat>,
    pub undo_stack: Seq<SnapshotView>,
    pub redo_stack: Seq<SnapshotView>,
    pub focus: EditorFocus,
    pub editing_target: Option<EditTarget>,
    pub pending_add: Option<PendingView>,
    pub input_buffer: Seq<char>,
    pub status: Seq<char>,
}

impl EditorView {
    /// Cursor and multi-selection fit the document, and every snapshot of
    /// the history can be restored.
    pub open spec fn consistent(self) -> bool {
        &&& cursor_ok(self.types, self.selected_type, self.selected_field)
        &&& selection_ok(self.types.len(), self.multi_select, self.selected_types)
        &&& forall|i: int| 0 <= i < self.undo_stack.len() ==> (#[trigger] self.undo_stack[i]).wf()
        &&& forall|i: int| 0 <= i < self.redo_stack.len() ==> (#[trigger] self.redo_stack[i]).wf()
    }

    /// The editor's invariant: the state is consistent, and text is being
    /// captured exactly while there is something to write it to.
    pub open spec fn wf(self) -> bool {
        &&& self.consistent()
        &&& (self.focus == EditorFocus::Editing <==> self.editing_target is Some)
    }

    /// The fields of the type under the cursor; none where the document is
    /// empty.
    pub open spec fn current_fields(self) -> Seq<FieldView> {
        if self.selected_type < self.types.len() {
            self.types[self.selected_type as int].fields
        } else {
            Seq::empty()
        }
    }

    /// Whether the cursor is on a field.
    pub open spec fn has_current_field(self) -> bool {
        self.selected_field < self.current_fields().len()
    }

    /// The field under the cursor.
    pub open spec fn current_field(self) -> FieldView
        recommends
            self.has_current_field(),
    {
        self.current_fields()[self.selected_field as int]
    }

    /// The types that a command acts on: the multi-selection in
    /// multi-select mode, else the type under the cursor, if there is one.
    pub open spec fn target_types(self) -> Seq<nat> {
        if self.multi_select {
            self.selected_types
        } else if self.types.len() == 0 {
            Seq::empty()
        } else {
            seq![self.selected_type]
        }
    }

    /// The state with another status line.
    pub open spec fn with_status(self, status: Seq<char>) -> EditorView {
        EditorView { status, ..self }
    }

    /// The state of a new editor: empty document, nothing selected, empty
    /// history.
    pub open spec fn initial() -> EditorView {
        EditorView {
            path: None,
            source: FileSource::Local,
            types: Seq::empty(),
            selected_type: 0,
            selected_field: 0,
            multi_select: false,
            selected_types: Seq::empty(),
            undo_stack: Seq::empty(),
            redo_stack: Seq::empty(),
            focus: EditorFocus::TypeList,
            editing_target: None,
            pending_add: None,
            input_buffer: Seq::empty(),
            status: "Load a file to begin"@,
        }
    }
}

/// The editor: a document with a cursor, a multi-selection over its types,
/// undo and redo stacks, and the text being captured.
pub struct Editor {
    pub path: Option<String>,
    pub source: FileSource,
    pub types: Vec<TypeEntry>,
    pub selected_type: usize,
    pub selected_field: usize,
    pub multi_select: bool,
    /// The selected positions, ascending.
    pub selected_types: Vec<usize>,
    pub undo_stack: Vec<EditorSnapshot>,
    pub redo_stack: Vec<EditorSnapshot>,
    pub focus: EditorFocus,
    pub editing_target: Option<EditTarget>,
    pub pending_add: Option<PendingAdd>,
    pub input_buffer: String,
    pub status: String,
}

impl View for Editor {
    type V = EditorView;

    open spec fn view(&self) -> EditorView {
        EditorView {
            path: optional_text(self.path),
            source: self.source,
            types: types_view(self.types@),
            selected_type: self.selected_type as nat,
            selected_field: self.selected_field as nat,
            multi_select: self.multi_select,
            selected_types: indices_view(self.selected_types@),
            undo_stack: snapshots_view(self.undo_stack@),
            redo_stack: snapshots_view(self.redo_stack@),
            focus: self.focus,
            editing_target: self.editing_target,
            pending_add: pending_view(self.pending_add),
            input_buffer: self.input_buffer@,
            status: self.status@,
        }
    }
}

impl Editor {
    /// The editor's invariant, which every command keeps.
    pub open spec fn wf(&self) -> bool {
        self@.wf()
    }

    /// An editor with no document loaded.
    pub fn new() -> (r: Self)
        ensures
            r@ == EditorView::initial(),
            r.wf(),
    {
        let r = Self {
            path: None,
            source: FileSource::Local,
            types: Vec::new(),
            selected_type: 0,
            selected_field: 0,
            multi_select: false,
            selected_types: Vec::new(),
            undo_stack: Vec::new(),
            redo_stack: Vec::new(),
            focus: EditorFocus::TypeList,
            editing_target: None,
            pending_add: None,
            input_buffer: String::new(),
            status: "Load a file to begin".to_owned(),
        };
        assert(r@.types =~= Seq::empty());
        assert(r@.selected_types =~= Seq::empty());
        assert(r@.undo_stack =~= Seq::empty());
        assert(r@.redo_stack =~= Seq::empty());
        r
    }

    /// Whether text is being captured.
    pub fn is_editing(&self) -> (r: bool)
        ensures
            r == (self@.focus == EditorFocus::Editing),
    {
        self.focus == EditorFocus::Editing
    }

    /// How many fields the type under the cursor has; zero where the
    /// document is empty.
    pub fn current_fields_len(&self) -> (r: usize)
        ensures
            r == self@.current_fields().len(),
    {
        if self.selected_type < self.types.len() {
            self.types[self.selected_type].fields.len()
        } else {
            0
        }
    }

    /// The field under the cursor, if the cursor is on one.
    pub fn current_field(&self) -> (r: Option<&Field>)
        ensures
            r is Some <==> self@.has_current_field(),
            r matches Some(field) ==> field@ == self@.current_field() && *field
                == self.types@[self.selected_type as int].fields@[self.selected_field as int],
    {
        if self.selected_type < self.types.len() && self.selected_field
            < self.types[self.selected_type].fields.len() {
            Some(&self.types[self.selected_type].fields[self.selected_field])
        } else {
            None
        }
    }

    /// The fields of the type under the cursor; none where the document is
    /// empty.
    pub fn current_fields(&self) -> (r: Vec<Field>)
        ensures
            fields_view(r@) == self@.current_fields(),
    {
        if self.selected_type < self.types.len() {
            clone_fields(&self.types[self.selected_type].fields)
        } else {
            let r: Vec<Field> = Vec::new();
            assert(fields_view(r@) =~= Seq::empty());
            r
        }
    }
}

/// Whether the cursor points into the document.
fn cursor_in_bounds(types: &Vec<TypeEntry>, selected_type: usize, selected_field: usize) -> (r: bool)
    ensures
        r == cursor_ok(types_view(types@), selected_type as nat, selected_field as nat),
{
    if types.len() == 0 {
        selected_type == 0 && selected_field == 0
    } else {
        selected_type < types.len() && (selected_field == 0 || selected_field
            < types[selected_type].fields.len())
    }
}

/// Whether the multi-selection fits a document of `count` types.
fn selection_in_bounds(count: usize, multi_select: bool, selected_types: &Vec<usize>) -> (r: bool)
    ensures
        r == selection_ok(count as nat, multi_select, indices_view(selected_types@)),
{
    let ghost selected = indices_view(selected_types@);
    if multi_select != (selected_types.len() > 0) {
        return false;
    }
    let mut i: usize = 0;
    while i < selected_types.len()
        invariant
            i <= selected_types.len(),
            selected == indices_view(selected_types@),
            forall|k: int| 0 <= k < i ==> selected[k] < count,
            forall|k: int, l: int| 0 <= k < l < i ==> selected[k] < selected[l],
        decreases selected_types.len() - i,
    {
        if selected_types[i] >= count {
            assert(!(selected[i as int] < count));
            return false;
        }
        if i > 0 && selected_types[i - 1] >= selected_types[i] {
            assert(!(selected[i as int - 1] < selected[i as int]));
            return false;
        }
        assert forall|k: int, l: int| 0 <= k < l < i + 1 implies selected[k] < selected[l] by {
            if l == i && k < i - 1 {
                assert(selected[k] < selected[i as int - 1]);
            }
        }
        i += 1;
    }
    true
}

impl EditorSnapshot {
    /// Whether the snapshot can be restored.
    pub fn is_well_formed(&self) -> (r: bool)
        ensures
            r == self@.wf(),
    {
        cursor_in_bounds(&self.types, self.selected_type, self.selected_field) && selection_in_bounds(
            self.types.len(),
            self.multi_select,
            &self.selected_types,
        ) && self.focus != EditorFocus::Editing
    }
}

/// Whether every snapshot of a stack can be restored.
fn stack_is_well_formed(stack: &Vec<EditorSnapshot>) -> (r: bool)
    ensures
        r == (forall|i: int|
            0 <= i < snapshots_view(stack@).len() ==> (#[trigger] snapshots_view(stack@)[i]).wf()),
{
    let mut i: usize = 0;
    while i < stack.len()
        invariant
            i <= stack.len(),
            forall|k: int| 0 <= k < i ==> (#[trigger] snapshots_view(stack@)[k]).wf(),
        decreases stack.len() - i,
    {
        if !stack[i].is_well_formed() {
            assert(!snapshots_view(stack@)[i as int].wf());
            return false;
        }
        i += 1;
    }
    true
}

impl Editor {
    /// Whether the editor's invariant holds. It does for every editor that
    /// was made by [`Editor::new`] and changed by the editor's commands
    /// alone.
    pub fn is_well_formed(&self) -> (r: bool)
        ensures
            r == self.wf(),
    {
        let cursor = cursor_in_bounds(&self.types, self.selected_type, self.selected_field);
        let selection = selection_in_bounds(self.types.len(), self.multi_select, &self.selected_types);
        let target = match self.editing_target {
            Some(_) => self.focus == EditorFocus::Editing,
            None => self.focus != EditorFocus::Editing,
        };
        let undo = stack_is_well_formed(&self.undo_stack);
        let redo = stack_is_well_formed(&self.redo_stack);
        assert(self@.undo_stack == snapshots_view(self.undo_stack@));
        assert(self@.redo_stack == snapshots_view(self.redo_stack@));
        cursor && selection && target && undo && redo
    }
}

} // verus!
