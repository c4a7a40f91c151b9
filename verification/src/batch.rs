//! The commands that fan out over the selected types: the deferred add, and
//! delete in multi-select mode.

use vstd::prelude::*;
use crate::commands::{clamped, new_element_field};
use crate::document::{
    append_field,
    count_elements,
    first_with_key,
    key_count,
    lemma_first_with_key,
    remove_field,
    remove_type,
};
use crate::model::{Field, FieldKey, FieldView, KeyView, TypeView, fields_view, types_view};
use crate::state::{
    EditTarget,
    Editor,
    EditorFocus,
    EditorView,
    PendingAdd,
    PendingAddKind,
    PendingKindView,
    PendingView,
    indices_view,
};
use crate::text::{decimal, decimal_string, join2, join3};

verus! {

/// What the status line calls the thing that a deferred add appends.
pub open spec fn pending_label(kind: PendingKindView) -> Seq<char> {
    match kind {
        PendingKindView::Field => "field"@,
        PendingKindView::Attribute { .. } => "attribute"@,
    }
}

/// The field that a deferred add appends to a type with the given fields.
/// The index of an element field is counted for each type by itself.
pub open spec fn pending_field(
    kind: PendingKindView,
    name: Seq<char>,
    value: Seq<char>,
    fields: Seq<FieldView>,
) -> FieldView {
    match kind {
        PendingKindView::Field => new_element_field(fields, name, value),
        PendingKindView::Attribute { element, index } => FieldView {
            key: KeyView::Attribute { element, index, attr: name },
            value,
        },
    }
}

/// The document after a deferred add: every target type has one more field
/// at its end, every other type is as it was.
pub open spec fn fanned_out(
    types: Seq<TypeView>,
    targets: Seq<nat>,
    kind: PendingKindView,
    name: Seq<char>,
    value: Seq<char>,
) -> Seq<TypeView> {
    Seq::new(
        types.len(),
        |i: int|
            if targets.contains(i as nat) {
                TypeView {
                    name: types[i].name,
                    fields: types[i].fields.push(pending_field(kind, name, value, types[i].fields)),
                }
            } else {
                types[i]
            },
    )
}

/// The fields without the first one that has the key `key`, if one has.
pub open spec fn without_first_key(fields: Seq<FieldView>, key: KeyView) -> Seq<FieldView> {
    let at = first_with_key(fields, key);
    if at < fields.len() {
        fields.remove(at)
    } else {
        fields
    }
}

/// The document after a batch delete of fields: every target type has lost
/// its first field with the key `key`, if it had one; every other type is
/// as it was.
pub open spec fn key_removed(types: Seq<TypeView>, targets: Seq<nat>, key: KeyView) -> Seq<TypeView> {
    Seq::new(
        types.len(),
        |i: int|
            if targets.contains(i as nat) {
                TypeView { name: types[i].name, fields: without_first_key(types[i].fields, key) }
            } else {
                types[i]
            },
    )
}

/// How many of the target types have a field with the key `key`.
pub open spec fn holders(types: Seq<TypeView>, targets: Seq<nat>, key: KeyView) -> nat
    decreases targets.len(),
{
    if targets.len() == 0 {
        0
    } else {
        holders(types, targets.drop_last(), key) + if targets.last() < types.len() && first_with_key(
            types[targets.last() as int].fields,
            key,
        ) < types[targets.last() as int].fields.len() {
            1nat
        } else {
            0nat
        }
    }
}

/// The types at the positions that are not in `removed`, in order.
pub open spec fn without_positions(types: Seq<TypeView>, removed: Seq<nat>) -> Seq<TypeView>
    decreases types.len(),
{
    if types.len() == 0 {
        Seq::empty()
    } else {
        let rest = without_positions(types.drop_last(), removed);
        if removed.contains((types.len() - 1) as nat) {
            rest
        } else {
            rest.push(types.last())
        }
    }
}

impl EditorView {
    /// The state after the captured text was given to the pending deferred
    /// add. The first text is the name of the new field, the second its
    /// value; with the value the field goes to every target type, in one
    /// undo frame.
    pub open spec fn pending_applied(self) -> EditorView {
        if self.pending_add is None {
            self
        } else {
            let pending = self.pending_add->0;
            match self.editing_target {
                Some(EditTarget::FieldName) => EditorView {
                    pending_add: Some(PendingView { kind: pending.kind, name: Some(self.input_buffer) }),
                    input_buffer: Seq::empty(),
                    editing_target: Some(EditTarget::FieldValue),
                    status: "Enter a value for the new "@ + pending_label(pending.kind),
                    ..self
                },
                Some(EditTarget::FieldValue) => {
                    let targets = self.target_types();
                    let name = match pending.name {
                        Some(name) => name,
                        None => "new_field"@,
                    };
                    if targets.len() == 0 {
                        self.with_status("No types selected"@)
                    } else {
                        EditorView {
                            types: fanned_out(self.types, targets, pending.kind, name, self.input_buffer),
                            selected_field: if targets.contains(self.selected_type) {
                                self.current_fields().len()
                            } else {
                                self.selected_field
                            },
                            status: "Added "@ + pending_label(pending.kind) + " to "@ + decimal(
                                targets.len(),
                            ) + " types"@,
                            pending_add: None,
                            ..self.with_undo_frame()
                        }
                    }
                },
                _ => self,
            }
        }
    }

    /// Whether the edit goes on after the captured text was given to the
    /// pending deferred add.
    pub open spec fn pending_continues(self) -> bool {
        self.pending_add is Some && self.editing_target == Some(EditTarget::FieldName)
    }

    /// The state after the captured text was accepted.
    pub open spec fn input_applied(self) -> EditorView {
        if self.pending_add is Some {
            self.pending_applied()
        } else {
            self.text_committed()
        }
    }

    /// Whether the edit goes on after the captured text was accepted.
    pub open spec fn input_continues(self) -> bool {
        if self.pending_add is Some {
            self.pending_continues()
        } else {
            self.text_commit_continues()
        }
    }

    /// The state after the target types were deleted: the cursor is
    /// clamped, and multi-select mode is off.
    pub open spec fn selected_types_deleted(self) -> EditorView {
        let targets = self.target_types();
        if self.types.len() == 0 || targets.len() == 0 {
            self
        } else {
            let left = without_positions(self.types, targets);
            EditorView {
                types: left,
                selected_type: clamped(self.selected_type, left.len()),
                selected_field: 0,
                multi_select: false,
                selected_types: Seq::empty(),
                status: "Deleted "@ + decimal(targets.len()) + " types"@,
                ..self.with_undo_frame()
            }
        }
    }

    /// The state after the field under the cursor was deleted from the
    /// target types: each loses its first field with the same key.
    pub open spec fn field_deleted_from_selected(self) -> EditorView {
        let targets = self.target_types();
        if !self.has_current_field() || targets.len() == 0 {
            self
        } else {
            let key = self.current_field().key;
            let left = key_removed(self.types, targets, key);
            EditorView {
                types: left,
                selected_field: if targets.contains(self.selected_type) {
                    clamped(self.selected_field, left[self.selected_type as int].fields.len())
                } else {
                    self.selected_field
                },
                status: "Deleted field from "@ + decimal(holders(self.types, targets, key)) + " types"@,
                ..self.with_undo_frame()
            }
        }
    }

    /// The state after Delete in multi-select mode.
    pub open spec fn multi_deleted(self) -> EditorView {
        match self.focus {
            EditorFocus::TypeList => self.selected_types_deleted(),
            EditorFocus::FieldList => self.field_deleted_from_selected(),
            EditorFocus::Editing => self,
        }
    }
}

/// A deferred add fans out. After it every target type has, as its last
/// field, the new field with the entered value, and before it the fields it
/// had; the index of a new element field is the number of element fields
/// of that name that the type had. No other type is changed.
pub proof fn lemma_fan_out(
    types: Seq<TypeView>,
    targets: Seq<nat>,
    kind: PendingKindView,
    name: Seq<char>,
    value: Seq<char>,
    at: int,
)
    requires
        0 <= at < types.len(),
    ensures
        fanned_out(types, targets, kind, name, value).len() == types.len(),
        !targets.contains(at as nat) ==> fanned_out(types, targets, kind, name, value)[at] == types[at],
        targets.contains(at as nat) ==> ({
            let after = fanned_out(types, targets, kind, name, value)[at];
            &&& after.name == types[at].name
            &&& after.fields.drop_last() == types[at].fields
            &&& after.fields.last().value == value
            &&& kind is Field ==> after.fields.last().key == KeyView::Element {
                name,
                index: crate::document::element_count(types[at].fields, name),
            }
            &&& kind matches PendingKindView::Attribute { element, index } ==> after.fields.last().key
                == KeyView::Attribute { element, index, attr: name }
        }),
{
    if targets.contains(at as nat) {
        let after = fanned_out(types, targets, kind, name, value)[at];
        assert(after.fields.drop_last() =~= types[at].fields);
    }
}

/// Taking one field out lowers the count of its key by one and leaves the
/// count of every other key as it was.
pub proof fn lemma_key_count_remove(fields: Seq<FieldView>, at: int, key: KeyView)
    requires
        0 <= at < fields.len(),
    ensures
        key_count(fields.remove(at), key) + (if fields[at].key == key {
            1nat
        } else {
            0nat
        }) == key_count(fields, key),
    decreases fields.len(),
{
    if at == fields.len() - 1 {
        assert(fields.remove(at) =~= fields.drop_last());
    } else {
        assert(fields.remove(at).drop_last() =~= fields.drop_last().remove(at));
        assert(fields.remove(at).last() == fields.last());
        lemma_key_count_remove(fields.drop_last(), at, key);
    }
}

/// A list in which no field has the key counts none.
pub proof fn lemma_key_count_none(fields: Seq<FieldView>, key: KeyView)
    requires
        forall|k: int| 0 <= k < fields.len() ==> (#[trigger] fields[k]).key != key,
    ensures
        key_count(fields, key) == 0,
    decreases fields.len(),
{
    if fields.len() > 0 {
        assert(fields.last() == fields[fields.len() - 1]);
        assert forall|k: int| 0 <= k < fields.drop_last().len() implies (#[trigger] fields.drop_last()[k]).key
            != key by {
            assert(fields.drop_last()[k] == fields[k]);
        }
        lemma_key_count_none(fields.drop_last(), key);
    }
}

/// A batch delete is consistent. In every target type the number of fields
/// with the template key goes down by one if there was such a field, and
/// stays zero if there was none; the other fields keep their number. No
/// other type is changed.
pub proof fn lemma_batch_delete(types: Seq<TypeView>, targets: Seq<nat>, key: KeyView, at: int)
    requires
        0 <= at < types.len(),
    ensures
        key_removed(types, targets, key).len() == types.len(),
        !targets.contains(at as nat) ==> key_removed(types, targets, key)[at] == types[at],
        targets.contains(at as nat) ==> ({
            let before = types[at].fields;
            let after = key_removed(types, targets, key)[at].fields;
            &&& key_count(before, key) > 0 ==> key_count(after, key) == key_count(before, key) - 1
                && after.len() == before.len() - 1
            &&& key_count(before, key) == 0 ==> after == before
            &&& forall|other: KeyView| other != key ==> key_count(after, other) == key_count(before, other)
        }),
{
    if targets.contains(at as nat) {
        let before = types[at].fields;
        let after = key_removed(types, targets, key)[at].fields;
        let first = first_with_key(before, key);
        lemma_first_with_key(before, key);
        if first < before.len() {
            lemma_key_count_remove(before, first, key);
            assert forall|other: KeyView| other != key implies key_count(after, other) == key_count(
                before,
                other,
            ) by {
                lemma_key_count_remove(before, first, other);
            }
        } else {
            lemma_key_count_none(before, key);
        }
    }
}

/// What is among the first `count + 1` positions of a list: what is among
/// the first `count`, and the one after them.
proof fn lemma_take_contains(list: Seq<nat>, count: int, position: nat)
    requires
        0 <= count < list.len(),
    ensures
        list.take(count + 1).contains(position) == (list.take(count).contains(position) || list[count]
            == position),
{
    let shorter = list.take(count);
    let longer = list.take(count + 1);
    assert(longer[count] == list[count]);
    if shorter.contains(position) {
        let k = choose|k: int| 0 <= k < shorter.len() && shorter[k] == position;
        assert(longer[k] == position);
    }
    if longer.contains(position) {
        let k = choose|k: int| 0 <= k < longer.len() && longer[k] == position;
        if k < count {
            assert(shorter[k] == position);
        }
    }
}

/// In an ascending list a position does not occur before itself.
proof fn lemma_not_before(list: Seq<nat>, count: int)
    requires
        crate::selection::ascending(list),
        0 <= count < list.len(),
    ensures
        !list.take(count).contains(list[count]),
{
    if list.take(count).contains(list[count]) {
        let k = choose|k: int| 0 <= k < list.take(count).len() && list.take(count)[k] == list[count];
        assert(list[k] < list[count]);
    }
}

/// Removing positions never makes a list longer.
proof fn lemma_without_positions_len(types: Seq<TypeView>, removed: Seq<nat>)
    ensures
        without_positions(types, removed).len() <= types.len(),
    decreases types.len(),
{
    if types.len() > 0 {
        lemma_without_positions_len(types.drop_last(), removed);
    }
}

/// The types before the lowest removed position stay where they are.
proof fn lemma_kept_prefix(types: Seq<TypeView>, removed: Seq<nat>, bound: int)
    requires
        0 <= bound <= types.len(),
        forall|k: int| 0 <= k < removed.len() ==> removed[k] >= bound,
    ensures
        without_positions(types, removed).len() >= bound,
        forall|i: int| 0 <= i < bound ==> without_positions(types, removed)[i] == types[i],
    decreases types.len(),
{
    if types.len() > 0 {
        let rest = without_positions(types.drop_last(), removed);
        lemma_without_positions_len(types.drop_last(), removed);
        if bound == types.len() {
            lemma_kept_prefix(types.drop_last(), removed, bound - 1);
            if removed.contains((types.len() - 1) as nat) {
                let k = choose|k: int| 0 <= k < removed.len() && removed[k] == (types.len() - 1) as nat;
                assert(removed[k] >= bound);
                assert(false);
            }
            assert(rest.len() == bound - 1);
        } else {
            lemma_kept_prefix(types.drop_last(), removed, bound);
        }
        assert forall|i: int| 0 <= i < bound implies without_positions(types, removed)[i] == types[i] by {
            if i < types.len() - 1 {
                assert(rest[i] == types.drop_last()[i]);
            }
        }
    }
}

/// Positions beyond the end of the list do not matter.
proof fn lemma_position_beyond(types: Seq<TypeView>, removed: Seq<nat>, position: nat)
    requires
        position >= types.len(),
    ensures
        without_positions(types, seq![position] + removed) == without_positions(types, removed),
    decreases types.len(),
{
    if types.len() > 0 {
        lemma_position_beyond(types.drop_last(), removed, position);
        let last = (types.len() - 1) as nat;
        let more = seq![position] + removed;
        if removed.contains(last) {
            let k = choose|k: int| 0 <= k < removed.len() && removed[k] == last;
            assert(more[k + 1] == last);
        }
        if more.contains(last) {
            let k = choose|k: int| 0 <= k < more.len() && more[k] == last;
            assert(k > 0);
            assert(removed[k - 1] == last);
        }
    }
}

/// Removing one more position that lies before all the others takes the
/// type at that position out of what was left.
proof fn lemma_remove_one(types: Seq<TypeView>, removed: Seq<nat>, position: nat)
    requires
        position < types.len(),
        forall|k: int| 0 <= k < removed.len() ==> removed[k] > position,
    ensures
        without_positions(types, seq![position] + removed) == without_positions(types, removed).remove(
            position as int,
        ),
    decreases types.len(),
{
    let more = seq![position] + removed;
    let last = (types.len() - 1) as nat;
    let shorter = types.drop_last();
    lemma_kept_prefix(types, removed, position as int + 1);
    lemma_without_positions_len(types, removed);
    assert(more[0] == position);
    if last == position {
        lemma_position_beyond(shorter, removed, position);
        if removed.contains(last) {
            let k = choose|k: int| 0 <= k < removed.len() && removed[k] == last;
            assert(false);
        }
        let rest = without_positions(shorter, removed);
        assert(without_positions(types, removed) == rest.push(types.last()));
        assert(rest.push(types.last()).remove(position as int) =~= rest);
    } else {
        lemma_remove_one(shorter, removed, position);
        lemma_kept_prefix(shorter, removed, position as int + 1);
        if removed.contains(last) {
            let k = choose|k: int| 0 <= k < removed.len() && removed[k] == last;
            assert(more[k + 1] == last);
        }
        if more.contains(last) {
            let k = choose|k: int| 0 <= k < more.len() && more[k] == last;
            assert(k > 0);
            assert(removed[k - 1] == last);
        }
        let rest = without_positions(shorter, removed);
        if !removed.contains(last) {
            assert(rest.remove(position as int).push(types.last()) =~= rest.push(types.last()).remove(
                position as int,
            ));
        }
    }
}

/// Where no position is removed, the list stays as it is.
proof fn lemma_remove_none(types: Seq<TypeView>)
    ensures
        without_positions(types, Seq::empty()) == types,
    decreases types.len(),
{
    if types.len() > 0 {
        lemma_remove_none(types.drop_last());
        assert(types.drop_last().push(types.last()) =~= types);
    }
}

/// The position of the first field with the key `key`; the number of
/// fields if there is none.
fn find_key(fields: &Vec<Field>, key: &FieldKey) -> (r: usize)
    ensures
        r == first_with_key(fields_view(fields@), key@),
        r <= fields@.len(),
{
    let ghost all = fields_view(fields@);
    let mut i: usize = 0;
    assert(all.skip(0) =~= all);
    while i < fields.len()
        invariant
            i <= fields.len(),
            all == fields_view(fields@),
            first_with_key(all, key@) == i + first_with_key(all.skip(i as int), key@),
        decreases fields.len() - i,
    {
        assert(all.skip(i as int).first() == fields@[i as int]@);
        if fields[i].key.same_key(key) {
            return i;
        }
        assert(all.skip(i as int).drop_first() =~= all.skip(i as int + 1));
        i += 1;
    }
    assert(all.skip(fields.len() as int) =~= Seq::<FieldView>::empty());
    i
}

fn label_of_kind(kind: &PendingAddKind) -> (r: &'static str)
    ensures
        r@ == pending_label(kind@),
{
    match kind {
        PendingAddKind::Field => "field",
        PendingAddKind::Attribute { .. } => "attribute",
    }
}

impl Editor {
    /// Gives the captured text to the pending deferred add, and tells
    /// whether the edit goes on.
    pub fn apply_pending_add(&mut self) -> (r: bool)
        requires
            old(self).wf(),
        ensures
            final(self)@ == old(self)@.pending_applied(),
            r == old(self)@.pending_continues(),
            final(self)@.focus == old(self)@.focus,
            final(self)@.editing_target is Some == old(self)@.editing_target is Some,
            final(self)@.consistent(),
    {
        let value = self.input_buffer.clone();
        let (kind, name) = match &self.pending_add {
            Some(pending) => (
                pending.kind.clone(),
                match &pending.name {
                    Some(name) => Some(name.clone()),
                    None => None,
                },
            ),
            None => {
                return false;
            },
        };
        match self.editing_target {
            Some(EditTarget::FieldName) => {
                self.status = join2("Enter a value for the new ", label_of_kind(&kind));
                self.pending_add = Some(PendingAdd { kind, name: Some(value) });
                self.input_buffer.clear();
                self.editing_target = Some(EditTarget::FieldValue);
                true
            },
            Some(EditTarget::FieldValue) => {
                let name = match name {
                    Some(name) => name,
                    None => "new_field".to_owned(),
                };
                let indices = self.selected_type_indices();
                if indices.len() == 0 {
                    self.status = "No types selected".to_owned();
                    return false;
                }
                self.push_undo();
                let ghost framed_state = self@;
                let ghost initial = types_view(self.types@);
                let ghost targets = indices_view(indices@);
                let ghost cursor = self.selected_field as nat;
                let mut k: usize = 0;
                assert(targets[0] < initial.len());
                assert(targets.take(0) =~= Seq::<nat>::empty());
                assert(types_view(self.types@) =~= fanned_out(
                    initial,
                    targets.take(0),
                    kind@,
                    name@,
                    value@,
                ));
                while k < indices.len()
                    invariant
                        k <= indices.len(),
                        targets == indices_view(indices@),
                        crate::selection::ascending(targets),
                        forall|i: int| 0 <= i < targets.len() ==> targets[i] < initial.len(),
                        self.types@.len() == initial.len(),
                        self.selected_type as nat == framed_state.selected_type,
                        framed_state.selected_type < initial.len(),
                        types_view(self.types@) == fanned_out(initial, targets.take(k as int), kind@, name@, value@),
                        self.selected_field as nat == (if targets.take(k as int).contains(
                            framed_state.selected_type,
                        ) {
                            initial[framed_state.selected_type as int].fields.len()
                        } else {
                            cursor
                        }),
                        self@ == (EditorView {
                            types: types_view(self.types@),
                            selected_field: self.selected_field as nat,
                            ..framed_state
                        }),
                    decreases indices.len() - k,
                {
                    let idx = indices[k];
                    assert(targets[k as int] == idx);
                    proof {
                        lemma_not_before(targets, k as int);
                        assert forall|i: nat|
                            targets.take(k as int + 1).contains(i) == (targets.take(k as int).contains(i)
                                || i == idx) by {
                            lemma_take_contains(targets, k as int, i);
                        }
                    }
                    let ghost before = types_view(self.types@);
                    assert(before[idx as int] == initial[idx as int]);
                    assert(self.types@[idx as int]@ == before[idx as int]);
                    let field = match &kind {
                        PendingAddKind::Field => {
                            let index = count_elements(&self.types[idx].fields, name.as_str());
                            Field {
                                key: FieldKey::Element { name: name.clone(), index },
                                value: value.clone(),
                            }
                        },
                        PendingAddKind::Attribute { element, index } => Field {
                            key: FieldKey::Attribute {
                                element: element.clone(),
                                index: *index,
                                attr: name.clone(),
                            },
                            value: value.clone(),
                        },
                    };
                    assert(field@ == pending_field(kind@, name@, value@, initial[idx as int].fields));
                    append_field(&mut self.types, idx, field);
                    if idx == self.selected_type {
                        self.selected_field = self.types[idx].fields.len() - 1;
                    }
                    assert(types_view(self.types@) =~= fanned_out(
                        initial,
                        targets.take(k as int + 1),
                        kind@,
                        name@,
                        value@,
                    ));
                    k += 1;
                }
                assert(targets.take(indices.len() as int) =~= targets);
                let count = decimal_string(indices.len());
                let mut status = join3("Added ", label_of_kind(&kind), " to ");
                status = join3(status.as_str(), count.as_str(), " types");
                self.status = status;
                self.pending_add = None;
                false
            },
            _ => false,
        }
    }

    /// Accepts the captured text, and tells whether the edit goes on.
    pub fn apply_input(&mut self) -> (r: bool)
        requires
            old(self).wf(),
        ensures
            final(self)@ == old(self)@.input_applied(),
            r == old(self)@.input_continues(),
            final(self).wf(),
    {
        if self.pending_add.is_some() {
            self.apply_pending_add()
        } else {
            self.commit_text()
        }
    }

    /// Deletes the target types.
    pub fn delete_selected_types(&mut self)
        requires
            old(self).wf(),
        ensures
            final(self)@ == old(self)@.selected_types_deleted(),
            final(self).wf(),
    {
        if self.types.len() == 0 {
            return;
        }
        let indices = self.selected_type_indices();
        if indices.len() == 0 {
            return;
        }
        self.push_undo();
        let ghost framed_state = self@;
        let ghost initial = types_view(self.types@);
        let ghost targets = indices_view(indices@);
        let total = indices.len();
        let mut k: usize = indices.len();
        proof {
            assert(targets.skip(k as int) =~= Seq::<nat>::empty());
            lemma_remove_none(initial);
        }
        while k > 0
            invariant
                k <= indices.len(),
                targets == indices_view(indices@),
                crate::selection::ascending(targets),
                forall|i: int| 0 <= i < targets.len() ==> targets[i] < initial.len(),
                types_view(self.types@) == without_positions(initial, targets.skip(k as int)),
                self@ == (EditorView { types: types_view(self.types@), ..framed_state }),
            decreases k,
        {
            k -= 1;
            let idx = indices[k];
            assert(targets[k as int] == idx);
            proof {
                let later = targets.skip(k as int + 1);
                assert(targets.skip(k as int) =~= seq![idx as nat] + later);
                assert forall|i: int| 0 <= i < later.len() implies later[i] > idx by {
                    assert(later[i] == targets[k as int + 1 + i]);
                }
                lemma_remove_one(initial, later, idx as nat);
                lemma_kept_prefix(initial, later, idx as int + 1);
            }
            if idx < self.types.len() {
                remove_type(&mut self.types, idx);
            }
        }
        assert(targets.skip(0) =~= targets);
        if self.types.len() == 0 {
            self.selected_type = 0;
        } else if self.selected_type >= self.types.len() {
            self.selected_type = self.types.len() - 1;
        }
        self.selected_field = 0;
        self.multi_select = false;
        self.selected_types = Vec::new();
        assert(indices_view(self.selected_types@) =~= Seq::empty());
        let count = decimal_string(total);
        self.status = join3("Deleted ", count.as_str(), " types");
    }

    /// Deletes the field under the cursor from the target types: each
    /// loses its first field with the same key.
    pub fn delete_field_multi(&mut self)
        requires
            old(self).wf(),
        ensures
            final(self)@ == old(self)@.field_deleted_from_selected(),
            final(self).wf(),
    {
        let key = match self.current_field() {
            Some(field) => field.key.clone(),
            None => {
                return;
            },
        };
        let indices = self.selected_type_indices();
        if indices.len() == 0 {
            return;
        }
        self.push_undo();
        let ghost framed_state = self@;
        let ghost initial = types_view(self.types@);
        let ghost targets = indices_view(indices@);
        let ghost cursor = self.selected_field as nat;
        let mut updated: usize = 0;
        let mut k: usize = 0;
        assert(targets[0] < initial.len());
        assert(targets.take(0) =~= Seq::<nat>::empty());
        assert(types_view(self.types@) =~= key_removed(initial, targets.take(0), key@));
        while k < indices.len()
            invariant
                k <= indices.len(),
                updated <= k,
                targets == indices_view(indices@),
                crate::selection::ascending(targets),
                forall|i: int| 0 <= i < targets.len() ==> targets[i] < initial.len(),
                self.types@.len() == initial.len(),
                self.selected_type as nat == framed_state.selected_type,
                framed_state.selected_type < initial.len(),
                cursor == 0 || cursor < initial[framed_state.selected_type as int].fields.len(),
                types_view(self.types@) == key_removed(initial, targets.take(k as int), key@),
                updated == holders(initial, targets.take(k as int), key@),
                self.selected_field as nat == (if targets.take(k as int).contains(
                    framed_state.selected_type,
                ) {
                    clamped(
                        cursor,
                        without_first_key(initial[framed_state.selected_type as int].fields, key@).len(),
                    )
                } else {
                    cursor
                }),
                self@ == (EditorView {
                    types: types_view(self.types@),
                    selected_field: self.selected_field as nat,
                    ..framed_state
                }),
            decreases indices.len() - k,
        {
            let idx = indices[k];
            assert(targets[k as int] == idx);
            proof {
                lemma_not_before(targets, k as int);
                assert forall|i: nat|
                    targets.take(k as int + 1).contains(i) == (targets.take(k as int).contains(i) || i
                        == idx) by {
                    lemma_take_contains(targets, k as int, i);
                }
                assert(targets.take(k as int + 1).drop_last() =~= targets.take(k as int));
                assert(targets.take(k as int + 1).last() == idx);
                lemma_first_with_key(initial[idx as int].fields, key@);
            }
            let ghost before = types_view(self.types@);
            assert(before[idx as int] == initial[idx as int]);
            assert(self.types@[idx as int]@ == before[idx as int]);
            let at = find_key(&self.types[idx].fields, &key);
            if at < self.types[idx].fields.len() {
                remove_field(&mut self.types, idx, at);
                if idx == self.selected_type {
                    let left = self.types[idx].fields.len();
                    if left == 0 {
                        self.selected_field = 0;
                    } else if self.selected_field >= left {
                        self.selected_field = left - 1;
                    }
                }
                updated += 1;
            }
            assert(types_view(self.types@) =~= key_removed(initial, targets.take(k as int + 1), key@));
            k += 1;
        }
        assert(targets.take(indices.len() as int) =~= targets);
        let count = decimal_string(updated);
        self.status = join3("Deleted field from ", count.as_str(), " types");
    }

    /// Delete in multi-select mode: the selected types in the type list,
    /// the field under the cursor in the field list.
    pub fn delete_multi(&mut self)
        requires
            old(self).wf(),
        ensures
            final(self)@ == old(self)@.multi_deleted(),
            final(self).wf(),
    {
        match self.focus {
            EditorFocus::TypeList => self.delete_selected_types(),
            EditorFocus::FieldList => self.delete_field_multi(),
            EditorFocus::Editing => {},
        }
    }
}

} // verus!
