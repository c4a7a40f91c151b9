//! The texts that the panes show: labels, lines, header and footer.

use vstd::prelude::*;
use crate::model::{Field, FieldView, field_label, help_of, label_of};
use crate::picker::{Entry, EntryView, FilePicker, PickerView, source_label};
use crate::remote::{RemoteForm, RemoteFormView};
use crate::state::{
    EditTarget,
    Editor,
    EditorFocus,
    EditorView,
    FileSource,
    PendingKindView,
    PendingAddKind,
    indices_view,
};
use crate::text::{decimal, decimal_string, join2, join3, str_equal};

verus! {

/// The title of the input box: what the captured text will become.
pub open spec fn input_title_of(target: Option<EditTarget>, pending: Option<PendingKindView>) -> Seq<char> {
    match target {
        Some(EditTarget::TypeName) => "Type Name"@,
        Some(EditTarget::FieldName) => if pending matches Some(PendingKindView::Attribute { .. }) {
            "Attribute Name"@
        } else {
            "Field Name"@
        },
        Some(EditTarget::FieldValue) => if pending matches Some(PendingKindView::Attribute { .. }) {
            "Attribute Value"@
        } else {
            "Field Value"@
        },
        None => "Input"@,
    }
}

/// The line that the field list shows for a field.
pub open spec fn field_line_of(field: FieldView) -> Seq<char> {
    label_of(field.key) + ": "@ + field.value
}

/// The line that the picker shows for an entry: a directory other than
/// the way up ends in a slash.
pub open spec fn entry_label_of(entry: EntryView) -> Seq<char> {
    if entry.is_dir && entry.name != ".."@ {
        entry.name.push('/')
    } else {
        entry.name
    }
}

/// One line of the connection form.
pub open spec fn form_line_of(active: bool, label: Seq<char>, value: Seq<char>) -> Seq<char> {
    (if active {
        ">"@
    } else {
        " "@
    }) + " "@ + label + ": "@ + value
}

impl EditorView {
    /// The header: the file that is edited and where it comes from.
    pub open spec fn header_text(self) -> Seq<char> {
        match self.path {
            Some(path) => "Editing: "@ + path + " ("@ + source_label(self.source) + ")"@,
            None => "No file loaded"@,
        }
    }

    /// The line that the type list shows for the type at `at`: its name,
    /// behind a check box in multi-select mode.
    pub open spec fn type_label(self, at: int) -> Seq<char> {
        if self.multi_select {
            (if self.selected_types.contains(at as nat) {
                "[x]"@
            } else {
                "[ ]"@
            }) + " "@ + self.types[at].name
        } else {
            self.types[at].name
        }
    }

    /// What the tips pane shows: the help for the field under the cursor,
    /// nothing where the cursor is on no field.
    pub open spec fn tips_text(self) -> Seq<char> {
        if self.has_current_field() {
            help_of(self.current_field().key)
        } else {
            Seq::empty()
        }
    }

    /// The footer: the captured text during an edit, else the status line,
    /// with the size of the multi-selection in multi-select mode.
    pub open spec fn footer_text(self) -> Seq<char> {
        if self.focus == EditorFocus::Editing {
            "Help: ? | Quit: q | Status: editing ("@ + self.input_buffer + ")"@
        } else if self.multi_select {
            "Help: ? | Quit: q | Status: "@ + (self.status + " | Multi-select: "@ + decimal(
                self.selected_types.len(),
            ))
        } else {
            "Help: ? | Quit: q | Status: "@ + self.status
        }
    }

    /// The title of the input box.
    pub open spec fn input_title(self) -> Seq<char> {
        input_title_of(
            self.editing_target,
            match self.pending_add {
                Some(pending) => Some(pending.kind),
                None => None,
            },
        )
    }

    /// The text of the input box.
    pub open spec fn input_text(self) -> Seq<char> {
        self.input_title() + "\n\n"@ + self.input_buffer + "\n\nEnter to accept, Esc to cancel"@
    }
}

impl PickerView {
    /// The picker's footer: the source and the status line.
    pub open spec fn footer_text(self) -> Seq<char> {
        "Help: ? | Remote: r | Quit: q | Source: "@ + source_label(self.source) + " | Status: "@ + (if self.status.len()
            == 0 {
            "No file selected"@
        } else {
            self.status
        })
    }
}

impl RemoteFormView {
    /// The lines of the connection form, the active one marked.
    pub open spec fn lines(self) -> Seq<Seq<char>> {
        seq![
            form_line_of(self.field_index == 0, "Host"@, self.host),
            form_line_of(self.field_index == 1, "User"@, self.user),
            form_line_of(self.field_index == 2, "Port"@, self.port),
            form_line_of(self.field_index == 3, "Password (optional)"@, self.password),
            form_line_of(self.field_index == 4, "Key Path (optional)"@, self.key_path),
            form_line_of(self.field_index == 5, "Passphrase (optional)"@, self.passphrase),
        ]
    }
}

/// The line that the field list shows for a field.
pub fn field_line(field: &Field) -> (r: String)
    ensures
        r@ == field_line_of(field@),
{
    let label = field_label(&field.key);
    join3(label.as_str(), ": ", field.value.as_str())
}

/// The line that the picker shows for an entry.
pub fn entry_label(entry: &Entry) -> (r: String)
    ensures
        r@ == entry_label_of(entry@),
{
    let mut label = entry.name.clone();
    if entry.is_dir && !str_equal(entry.name.as_str(), "..") {
        label.push('/');
    }
    label
}

fn form_line(active: bool, label: &str, value: &str) -> (r: String)
    ensures
        r@ == form_line_of(active, label@, value@),
{
    let head = join3(if active { ">" } else { " " }, " ", label);
    join3(head.as_str(), ": ", value)
}

fn holds(indices: &Vec<usize>, at: usize) -> (r: bool)
    ensures
        r == indices_view(indices@).contains(at as nat),
{
    let mut i: usize = 0;
    while i < indices.len()
        invariant
            i <= indices.len(),
            forall|k: int| 0 <= k < i ==> indices_view(indices@)[k] != at as nat,
        decreases indices.len() - i,
    {
        if indices[i] == at {
            assert(indices_view(indices@)[i as int] == at as nat);
            return true;
        }
        i += 1;
    }
    false
}

impl Editor {
    /// The header: the file that is edited and where it comes from.
    pub fn header_text(&self) -> (r: String)
        ensures
            r@ == self@.header_text(),
    {
        match &self.path {
            Some(path) => {
                let label = match self.source {
                    FileSource::Local => "local",
                    FileSource::Remote => "ssh",
                };
                let head = join3("Editing: ", path.as_str(), " (");
                join3(head.as_str(), label, ")")
            },
            None => "No file loaded".to_owned(),
        }
    }

    /// The line that the type list shows for the type at `at`.
    pub fn type_label(&self, at: usize) -> (r: String)
        requires
            at < self.types@.len(),
        ensures
            r@ == self@.type_label(at as int),
    {
        if self.multi_select {
            let marker = if holds(&self.selected_types, at) {
                "[x]"
            } else {
                "[ ]"
            };
            join3(marker, " ", self.types[at].name.as_str())
        } else {
            self.types[at].name.clone()
        }
    }

    /// What the tips pane shows.
    pub fn tips_text(&self) -> (r: String)
        ensures
            r@ == self@.tips_text(),
    {
        match self.current_field() {
            Some(field) => field.key.get_help_text(),
            None => String::new(),
        }
    }

    /// The footer.
    pub fn footer_text(&self) -> (r: String)
        ensures
            r@ == self@.footer_text(),
    {
        if self.focus == EditorFocus::Editing {
            join3("Help: ? | Quit: q | Status: editing (", self.input_buffer.as_str(), ")")
        } else if self.multi_select {
            let count = decimal_string(self.selected_types.len());
            let status = join3(self.status.as_str(), " | Multi-select: ", count.as_str());
            join2("Help: ? | Quit: q | Status: ", status.as_str())
        } else {
            join2("Help: ? | Quit: q | Status: ", self.status.as_str())
        }
    }

    /// The title of the input box.
    pub fn input_title(&self) -> (r: &'static str)
        ensures
            r@ == self@.input_title(),
    {
        let attribute = match &self.pending_add {
            Some(pending) => match pending.kind {
                PendingAddKind::Attribute { .. } => true,
                PendingAddKind::Field => false,
            },
            None => false,
        };
        match self.editing_target {
            Some(EditTarget::TypeName) => "Type Name",
            Some(EditTarget::FieldName) => if attribute {
                "Attribute Name"
            } else {
                "Field Name"
            },
            Some(EditTarget::FieldValue) => if attribute {
                "Attribute Value"
            } else {
                "Field Value"
            },
            None => "Input",
        }
    }

    /// The text of the input box.
    pub fn input_text(&self) -> (r: String)
        ensures
            r@ == self@.input_text(),
    {
        let head = join3(self.input_title(), "\n\n", self.input_buffer.as_str());
        join2(head.as_str(), "\n\nEnter to accept, Esc to cancel")
    }
}

impl FilePicker {
    /// The picker's footer.
    pub fn footer_text(&self) -> (r: String)
        ensures
            r@ == self@.footer_text(),
    {
        let head = join3("Help: ? | Remote: r | Quit: q | Source: ", self.backend_label(), " | Status: ");
        if self.status.as_str().is_empty() {
            join2(head.as_str(), "No file selected")
        } else {
            join2(head.as_str(), self.status.as_str())
        }
    }
}

impl RemoteForm {
    /// The lines of the connection form, the active one marked.
    pub fn lines(&self) -> (r: Vec<String>)
        ensures
            r@.map_values(|s: String| s@) == self@.lines(),
    {
        let mut lines: Vec<String> = Vec::new();
        lines.push(form_line(self.field_index == 0, "Host", self.host.as_str()));
        lines.push(form_line(self.field_index == 1, "User", self.user.as_str()));
        lines.push(form_line(self.field_index == 2, "Port", self.port.as_str()));
        lines.push(form_line(self.field_index == 3, "Password (optional)", self.password.as_str()));
        lines.push(form_line(self.field_index == 4, "Key Path (optional)", self.key_path.as_str()));
        lines.push(form_line(self.field_index == 5, "Passphrase (optional)", self.passphrase.as_str()));
        assert(lines@.map_values(|s: String| s@) =~= self@.lines());
        lines
    }
}

} // verus!
