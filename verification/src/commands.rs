//! The commands that change one type or one field: add, add attribute,
//! copy, delete, and the commit of captured text.

use vstd::prelude::*;
use crate::document::{
    append_field,
    count_elements,
    element_count,
    insert_type,
    remove_field,
    remove_type,
    rename_type,
    set_field_key_name,
    set_field_value,
    with_field,
    with_field_key_name,
    with_field_value,
    with_type_name,
    without_field,
};
use crate::model::{Field, FieldKey, FieldView, KeyView, TypeEntry, TypeView, default_fields, default_template};
use crate::state::{EditTarget, Editor, EditorFocus, EditorView, PendingAdd, PendingAddKind, PendingKindView, PendingView};
use crate::text::join2;

verus! {

/// A cursor that stays where it is if it still points into a list of `len`
/// entries, and else goes to the last entry, or to zero if there is none.
pub open spec fn clamped(selected: nat, len: nat) -> nat {
    if len == 0 {
        0
    } else if selected >= len {
        (len - 1) as nat
    } else {
        selected
    }
}

/// After the entry under the cursor was removed, the cursor is inside the
/// list, or zero if the list is empty. Where the last entry was removed,
/// the cursor is on the entry before it, if there was one.
pub proof fn lemma_clamp_on_removal(selected: nat, len: nat)
    requires
        selected < len,
    ensures
        len == 1 ==> clamped(selected, (len - 1) as nat) == 0,
        len > 1 ==> clamped(selected, (len - 1) as nat) < len - 1,
        len > 1 && selected == len - 1 ==> clamped(selected, (len - 1) as nat) == selected - 1,
        selected < len - 1 ==> clamped(selected, (len - 1) as nat) == selected,
{
}

/// A new element field for a list of fields: its index is the number of
/// element fields of that name that the list has.
pub open spec fn new_element_field(fields: Seq<FieldView>, name: Seq<char>, value: Seq<char>) -> FieldView {
    FieldView { key: KeyView::Element { name, index: element_count(fields, name) }, value }
}

/// A new attribute field on the element occurrence that `key` belongs to.
pub open spec fn new_attribute_field(key: KeyView, attr: Seq<char>, value: Seq<char>) -> FieldView {
    FieldView {
        key: KeyView::Attribute { element: key.element_name(), index: key.index(), attr },
        value,
    }
}

impl EditorView {
    /// The state after a deferred add of a field began.
    pub open spec fn multi_add_field_begun(self) -> EditorView {
        if self.types.len() == 0 {
            self
        } else if self.target_types().len() == 0 {
            self.with_status("No types selected"@)
        } else {
            EditorView {
                pending_add: Some(PendingView { kind: PendingKindView::Field, name: None }),
                focus: EditorFocus::Editing,
                editing_target: Some(EditTarget::FieldName),
                input_buffer: "new_field"@,
                status: "Enter a name for the new field"@,
                ..self
            }
        }
    }

    /// The state after a deferred add of an attribute began. The attribute
    /// will go to the element occurrence of the field under the cursor.
    pub open spec fn multi_add_attribute_begun(self) -> EditorView {
        if self.types.len() == 0 {
            self
        } else if self.target_types().len() == 0 {
            self.with_status("No types selected"@)
        } else if !self.has_current_field() {
            self
        } else {
            let key = self.current_field().key;
            EditorView {
                pending_add: Some(
                    PendingView {
                        kind: PendingKindView::Attribute {
                            element: key.element_name(),
                            index: key.index(),
                        },
                        name: None,
                    },
                ),
                focus: EditorFocus::Editing,
                editing_target: Some(EditTarget::FieldName),
                input_buffer: "new_attr"@,
                status: "Enter a name for the new attribute"@,
                ..self
            }
        }
    }

    /// The state after Add. In the type list a new type with the default
    /// fields is appended and its name is edited; in the field list a new
    /// element field is appended to the type under the cursor and its name
    /// is edited. In multi-select mode the field list begins a deferred
    /// add, and the type list refuses.
    pub open spec fn added(self) -> EditorView {
        match self.focus {
            EditorFocus::TypeList => if self.multi_select {
                self.with_status("Multi-select: add fields from the field list"@)
            } else {
                EditorView {
                    types: self.types.push(TypeView { name: "new_type"@, fields: default_template() }),
                    selected_type: self.types.len(),
                    selected_field: 0,
                    focus: EditorFocus::Editing,
                    editing_target: Some(EditTarget::TypeName),
                    input_buffer: "new_type"@,
                    status: "Enter a name for the new type"@,
                    ..self.with_undo_frame()
                }
            },
            EditorFocus::FieldList => if self.multi_select {
                self.multi_add_field_begun()
            } else if self.types.len() == 0 {
                self
            } else {
                EditorView {
                    types: with_field(
                        self.types,
                        self.selected_type as int,
                        new_element_field(self.current_fields(), "new_field"@, Seq::empty()),
                    ),
                    selected_field: self.current_fields().len(),
                    focus: EditorFocus::Editing,
                    editing_target: Some(EditTarget::FieldName),
                    input_buffer: "new_field"@,
                    status: "Added new field; enter a name"@,
                    ..self.with_undo_frame()
                }
            },
            EditorFocus::Editing => self,
        }
    }

    /// The state after AddAttribute. With the field list in focus and the
    /// cursor on a field, a new attribute of that field's element
    /// occurrence is appended to the type under the cursor and its name is
    /// edited. In multi-select mode the field list begins a deferred add.
    pub open spec fn attribute_added(self) -> EditorView {
        if self.multi_select {
            if self.focus == EditorFocus::FieldList {
                self.multi_add_attribute_begun()
            } else {
                self.with_status("Multi-select: add attributes from the field list"@)
            }
        } else if self.focus != EditorFocus::FieldList || !self.has_current_field() {
            self
        } else {
            EditorView {
                types: with_field(
                    self.types,
                    self.selected_type as int,
                    new_attribute_field(self.current_field().key, "new_attr"@, Seq::empty()),
                ),
                selected_field: self.current_fields().len(),
                focus: EditorFocus::Editing,
                editing_target: Some(EditTarget::FieldName),
                input_buffer: "new_attr"@,
                status: "Added new attribute; enter a name"@,
                ..self.with_undo_frame()
            }
        }
    }

    /// The state after Copy. In the type list the type under the cursor is
    /// appended again under its name with `_copy` behind it, and the cursor
    /// goes to the copy; in the field list the field under the cursor is
    /// appended again to its type, key and all.
    pub open spec fn copied(self) -> EditorView {
        match self.focus {
            EditorFocus::TypeList => if self.selected_type < self.types.len() {
                let source = self.types[self.selected_type as int];
                EditorView {
                    types: self.types.push(
                        TypeView { name: source.name + "_copy"@, fields: source.fields },
                    ),
                    selected_type: self.types.len(),
                    selected_field: 0,
                    status: "Type copied"@,
                    ..self.with_undo_frame()
                }
            } else {
                self
            },
            EditorFocus::FieldList => if self.has_current_field() {
                EditorView {
                    types: with_field(self.types, self.selected_type as int, self.current_field()),
                    selected_field: self.current_fields().len(),
                    status: "Field copied"@,
                    ..self.with_undo_frame()
                }
            } else {
                self
            },
            EditorFocus::Editing => self,
        }
    }

    /// The state after Delete outside multi-select mode: the type or the
    /// field under the cursor is removed, and the cursor is clamped.
    pub open spec fn deleted(self) -> EditorView {
        match self.focus {
            EditorFocus::TypeList => if self.types.len() > 0 {
                EditorView {
                    types: self.types.remove(self.selected_type as int),
                    selected_type: clamped(self.selected_type, (self.types.len() - 1) as nat),
                    selected_field: 0,
                    status: "Type deleted"@,
                    ..self.with_undo_frame()
                }
            } else {
                self
            },
            EditorFocus::FieldList => if self.current_fields().len() > 0 {
                EditorView {
                    types: without_field(self.types, self.selected_type as int, self.selected_field as int),
                    selected_field: clamped(self.selected_field, (self.current_fields().len() - 1) as nat),
                    status: "Field deleted"@,
                    ..self.with_undo_frame()
                }
            } else {
                self
            },
            EditorFocus::Editing => self,
        }
    }

    /// The state after the captured text was written to its target, with
    /// no deferred add pending. A new field name is followed by an edit of
    /// the field's value.
    pub open spec fn text_committed(self) -> EditorView {
        match self.editing_target {
            Some(EditTarget::TypeName) => if self.selected_type < self.types.len() {
                EditorView {
                    types: with_type_name(self.types, self.selected_type as int, self.input_buffer),
                    status: "Type renamed"@,
                    ..self.with_undo_frame()
                }
            } else {
                self
            },
            Some(EditTarget::FieldName) => if self.has_current_field() {
                EditorView {
                    types: with_field_key_name(
                        self.types,
                        self.selected_type as int,
                        self.selected_field as int,
                        self.input_buffer,
                    ),
                    input_buffer: self.current_field().value,
                    editing_target: Some(EditTarget::FieldValue),
                    status: "Field renamed; edit value"@,
                    ..self.with_undo_frame()
                }
            } else {
                self
            },
            Some(EditTarget::FieldValue) => if self.has_current_field() {
                EditorView {
                    types: with_field_value(
                        self.types,
                        self.selected_type as int,
                        self.selected_field as int,
                        self.input_buffer,
                    ),
                    status: "Value updated"@,
                    ..self.with_undo_frame()
                }
            } else {
                self
            },
            None => self,
        }
    }

    /// Whether the edit goes on after the captured text was written to its
    /// target, with no deferred add pending.
    pub open spec fn text_commit_continues(self) -> bool {
        self.editing_target == Some(EditTarget::FieldName) && self.has_current_field()
    }
}

impl Editor {
    /// Begins a deferred add of a field to every selected type.
    pub fn begin_multi_add_field(&mut self)
        requires
            old(self).wf(),
        ensures
            final(self)@ == old(self)@.multi_add_field_begun(),
            final(self).wf(),
    {
        if self.types.len() == 0 {
            return;
        }
        if self.selected_type_indices().len() == 0 {
            self.status = "No types selected".to_owned();
            return;
        }
        self.pending_add = Some(PendingAdd { kind: PendingAddKind::Field, name: None });
        self.focus = EditorFocus::Editing;
        self.editing_target = Some(EditTarget::FieldName);
        self.input_buffer = "new_field".to_owned();
        self.status = "Enter a name for the new field".to_owned();
    }

    /// Begins a deferred add of an attribute to every selected type.
    pub fn begin_multi_add_attribute(&mut self)
        requires
            old(self).wf(),
        ensures
            final(self)@ == old(self)@.multi_add_attribute_begun(),
            final(self).wf(),
    {
        if self.types.len() == 0 {
            return;
        }
        if self.selected_type_indices().len() == 0 {
            self.status = "No types selected".to_owned();
            return;
        }
        let group = match self.current_field() {
            Some(field) => Some(field.key.group()),
            None => None,
        };
        match group {
            Some((element, index)) => {
                self.pending_add = Some(
                    PendingAdd { kind: PendingAddKind::Attribute { element, index }, name: None },
                );
                self.focus = EditorFocus::Editing;
                self.editing_target = Some(EditTarget::FieldName);
                self.input_buffer = "new_attr".to_owned();
                self.status = "Enter a name for the new attribute".to_owned();
            },
            None => {},
        }
    }

    /// Adds a type or a field, depending on the pane in focus.
    pub fn add(&mut self)
        requires
            old(self).wf(),
        ensures
            final(self)@ == old(self)@.added(),
            final(self).wf(),
    {
        match self.focus {
            EditorFocus::TypeList => {
                if self.multi_select {
                    self.status = "Multi-select: add fields from the field list".to_owned();
                    return;
                }
                self.push_undo();
                let new_type = TypeEntry { name: "new_type".to_owned(), fields: default_fields() };
                insert_type(&mut self.types, new_type);
                self.selected_type = self.types.len() - 1;
                self.selected_field = 0;
                self.focus = EditorFocus::Editing;
                self.editing_target = Some(EditTarget::TypeName);
                self.input_buffer = "new_type".to_owned();
                self.status = "Enter a name for the new type".to_owned();
            },
            EditorFocus::FieldList => {
                if self.multi_select {
                    self.begin_multi_add_field();
                    return;
                }
                if self.types.len() == 0 {
                    return;
                }
                self.push_undo();
                let index = count_elements(&self.types[self.selected_type].fields, "new_field");
                let field = Field {
                    key: FieldKey::Element { name: "new_field".to_owned(), index },
                    value: String::new(),
                };
                append_field(&mut self.types, self.selected_type, field);
                self.selected_field = self.types[self.selected_type].fields.len() - 1;
                self.input_buffer = "new_field".to_owned();
                self.editing_target = Some(EditTarget::FieldName);
                self.focus = EditorFocus::Editing;
                self.status = "Added new field; enter a name".to_owned();
            },
            EditorFocus::Editing => {},
        }
    }

    /// Adds an attribute to the element occurrence of the field under the
    /// cursor.
    pub fn add_attribute(&mut self)
        requires
            old(self).wf(),
        ensures
            final(self)@ == old(self)@.attribute_added(),
            final(self).wf(),
    {
        if self.multi_select {
            if self.focus == EditorFocus::FieldList {
                self.begin_multi_add_attribute();
            } else {
                self.status = "Multi-select: add attributes from the field list".to_owned();
            }
            return;
        }
        if self.focus != EditorFocus::FieldList {
            return;
        }
        let group = match self.current_field() {
            Some(field) => Some(field.key.group()),
            None => None,
        };
        match group {
            Some((element, index)) => {
                self.push_undo();
                let field = Field {
                    key: FieldKey::Attribute { element, index, attr: "new_attr".to_owned() },
                    value: String::new(),
                };
                append_field(&mut self.types, self.selected_type, field);
                self.selected_field = self.types[self.selected_type].fields.len() - 1;
                self.input_buffer = "new_attr".to_owned();
                self.editing_target = Some(EditTarget::FieldName);
                self.focus = EditorFocus::Editing;
                self.status = "Added new attribute; enter a name".to_owned();
            },
            None => {},
        }
    }

    /// Duplicates the type or the field under the cursor.
    pub fn copy(&mut self)
        requires
            old(self).wf(),
        ensures
            final(self)@ == old(self)@.copied(),
            final(self).wf(),
    {
        match self.focus {
            EditorFocus::TypeList => {
                if self.selected_type < self.types.len() {
                    let mut clone = self.types[self.selected_type].clone();
                    clone.name = join2(clone.name.as_str(), "_copy");
                    self.push_undo();
                    insert_type(&mut self.types, clone);
                    self.selected_type = self.types.len() - 1;
                    self.selected_field = 0;
                    self.status = "Type copied".to_owned();
                }
            },
            EditorFocus::FieldList => {
                let copy = match self.current_field() {
                    Some(field) => Some(field.clone()),
                    None => None,
                };
                match copy {
                    Some(field) => {
                        self.push_undo();
                        append_field(&mut self.types, self.selected_type, field);
                        self.selected_field = self.types[self.selected_type].fields.len() - 1;
                        self.status = "Field copied".to_owned();
                    },
                    None => {},
                }
            },
            EditorFocus::Editing => {},
        }
    }

    /// Removes the type or the field under the cursor. Multi-select mode
    /// has its own delete.
    pub fn delete(&mut self)
        requires
            old(self).wf(),
            !old(self).multi_select,
        ensures
            final(self)@ == old(self)@.deleted(),
            final(self).wf(),
    {
        match self.focus {
            EditorFocus::TypeList => {
                if self.types.len() > 0 {
                    self.push_undo();
                    remove_type(&mut self.types, self.selected_type);
                    if self.types.len() == 0 {
                        self.selected_type = 0;
                    } else if self.selected_type >= self.types.len() {
                        self.selected_type = self.types.len() - 1;
                    }
                    self.selected_field = 0;
                    self.status = "Type deleted".to_owned();
                }
            },
            EditorFocus::FieldList => {
                if self.current_fields_len() > 0 {
                    self.push_undo();
                    remove_field(&mut self.types, self.selected_type, self.selected_field);
                    let left = self.types[self.selected_type].fields.len();
                    if left == 0 {
                        self.selected_field = 0;
                    } else if self.selected_field >= left {
                        self.selected_field = left - 1;
                    }
                    self.status = "Field deleted".to_owned();
                }
            },
            EditorFocus::Editing => {},
        }
    }

    /// Writes the captured text to its target, with no deferred add
    /// pending, and tells whether the edit goes on.
    pub fn commit_text(&mut self) -> (r: bool)
        requires
            old(self).wf(),
        ensures
            final(self)@ == old(self)@.text_committed(),
            r == old(self)@.text_commit_continues(),
            final(self)@.focus == old(self)@.focus,
            final(self)@.editing_target is Some == old(self)@.editing_target is Some,
            final(self)@.consistent(),
    {
        let value = self.input_buffer.clone();
        match self.editing_target {
            Some(EditTarget::TypeName) => {
                if self.selected_type < self.types.len() {
                    self.push_undo();
                    rename_type(&mut self.types, self.selected_type, value);
                    self.status = "Type renamed".to_owned();
                }
                false
            },
            Some(EditTarget::FieldName) => {
                let current = match self.current_field() {
                    Some(field) => Some(field.value.clone()),
                    None => None,
                };
                match current {
                    Some(field_value) => {
                        self.push_undo();
                        set_field_key_name(&mut self.types, self.selected_type, self.selected_field, value);
                        self.input_buffer = field_value;
                        self.editing_target = Some(EditTarget::FieldValue);
                        self.status = "Field renamed; edit value".to_owned();
                        true
                    },
                    None => false,
                }
            },
            Some(EditTarget::FieldValue) => {
                if self.current_field().is_some() {
                    self.push_undo();
                    set_field_value(&mut self.types, self.selected_type, self.selected_field, value);
                    self.status = "Value updated".to_owned();
                }
                false
            },
            None => false,
        }
    }
}

} // verus!
