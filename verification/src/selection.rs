//! Cursor movement, focus changes and the multi-selection.

use vstd::prelude::*;
use crate::state::{EditTarget, Editor, EditorFocus, EditorView, indices_view};
use crate::text::{decimal, decimal_string, join3};

verus! {

/// Where the cursor goes from `selected` in a list of `len` entries. A step
/// of one past either end wraps to the other end; any other movement stops
/// at the ends.
pub open spec fn move_index(selected: nat, delta: int, len: nat) -> nat {
    if len == 0 {
        0
    } else if delta == 1 && selected == len - 1 {
        0
    } else if delta == -1 && selected == 0 {
        (len - 1) as nat
    } else if selected + delta < 0 {
        0
    } else if selected + delta >= len {
        (len - 1) as nat
    } else {
        (selected + delta) as nat
    }
}

/// The cursor stays inside a list that has entries.
pub proof fn lemma_move_index_in_bounds(selected: nat, delta: int, len: nat)
    requires
        len > 0,
    ensures
        move_index(selected, delta, len) < len,
{
}

/// One step down from the last entry leads to the first, one step up from
/// the first to the last.
pub proof fn lemma_step_wraps(len: nat)
    requires
        len > 0,
    ensures
        move_index((len - 1) as nat, 1, len) == 0,
        move_index(0, -1, len) == len - 1,
{
}

/// A page down from the first entry of a list of at most ten entries, or of
/// any list no longer than the page plus one, leads to the last entry.
pub proof fn lemma_page_stops_at_end(len: nat, page: int)
    requires
        len > 0,
        page > 1,
        len <= page,
    ensures
        move_index(0, page, len) == len - 1,
        move_index((len - 1) as nat, page, len) == len - 1,
        move_index(0, -page, len) == 0,
{
}

/// Computes where the cursor goes from `selected` by `delta` in a list of
/// `len` entries.
pub fn calculate_move_idx(selected: usize, delta: isize, len: usize) -> (r: usize)
    ensures
        r == move_index(selected as nat, delta as int, len as nat),
{
    if len == 0 {
        0
    } else if delta == 1 && selected == len - 1 {
        0
    } else if delta == -1 && selected == 0 {
        len - 1
    } else if delta >= 0 {
        let step = delta as usize;
        if selected >= len || step >= len - selected {
            len - 1
        } else {
            selected + step
        }
    } else {
        let back = (-(delta + 1)) as usize;
        if back >= selected {
            0
        } else {
            let target = selected - back - 1;
            if target >= len {
                len - 1
            } else {
                target
            }
        }
    }
}

/// How many of the positions are below `at`.
pub open spec fn below_count(selected: Seq<nat>, at: nat) -> nat
    decreases selected.len(),
{
    if selected.len() == 0 {
        0
    } else {
        below_count(selected.drop_last(), at) + if selected.last() < at {
            1nat
        } else {
            0nat
        }
    }
}

/// An ascending selection with `at` taken out if it is in, and put in at
/// its place if it is not.
pub open spec fn toggled(selected: Seq<nat>, at: nat) -> Seq<nat> {
    let place = below_count(selected, at) as int;
    if place < selected.len() && selected[place] == at {
        selected.remove(place)
    } else {
        selected.insert(place, at)
    }
}

/// Whether the positions are in strictly ascending order.
pub open spec fn ascending(selected: Seq<nat>) -> bool {
    forall|i: int, j: int| 0 <= i < j < selected.len() ==> selected[i] < selected[j]
}

/// In an ascending selection the positions below `at` are those before the
/// place where `at` is or belongs.
pub proof fn lemma_below_count(selected: Seq<nat>, at: nat, place: int)
    requires
        ascending(selected),
        0 <= place <= selected.len(),
        forall|i: int| 0 <= i < place ==> selected[i] < at,
        forall|i: int| place <= i < selected.len() ==> selected[i] >= at,
    ensures
        below_count(selected, at) == place,
    decreases selected.len(),
{
    if selected.len() > 0 {
        let rest = selected.drop_last();
        if place == selected.len() {
            lemma_below_count(rest, at, place - 1);
        } else {
            lemma_below_count(rest, at, place);
        }
    }
}

/// The place of `at` in an ascending selection: before it all positions are
/// below `at`, from it on none is.
pub proof fn lemma_place(selected: Seq<nat>, at: nat)
    requires
        ascending(selected),
    ensures
        0 <= below_count(selected, at) <= selected.len(),
        forall|i: int| 0 <= i < below_count(selected, at) ==> selected[i] < at,
        forall|i: int| below_count(selected, at) <= i < selected.len() ==> selected[i] >= at,
    decreases selected.len(),
{
    if selected.len() > 0 {
        let rest = selected.drop_last();
        lemma_place(rest, at);
        let place = below_count(rest, at) as int;
        if selected.last() < at {
            if place < rest.len() {
                assert(rest[place] >= at);
                assert(selected[place] < selected[selected.len() - 1]);
                assert(false);
            }
        }
        assert forall|i: int| 0 <= i < below_count(selected, at) implies selected[i] < at by {
            if i < rest.len() {
                assert(selected[i] == rest[i]);
            }
        }
        assert forall|i: int| below_count(selected, at) <= i < selected.len() implies selected[i]
            >= at by {
            if i < rest.len() {
                assert(selected[i] == rest[i]);
            }
        }
    }
}

/// What is in a selection after one position was taken out.
proof fn lemma_remove_members(selected: Seq<nat>, place: int, other: nat)
    requires
        ascending(selected),
        0 <= place < selected.len(),
    ensures
        selected.remove(place).contains(other) == (selected.contains(other) && other != selected[place]),
{
    let after = selected.remove(place);
    if selected.contains(other) && other != selected[place] {
        let k = choose|k: int| 0 <= k < selected.len() && selected[k] == other;
        if k < place {
            assert(after[k] == other);
        } else {
            assert(after[k - 1] == other);
        }
    }
    if after.contains(other) {
        let k = choose|k: int| 0 <= k < after.len() && after[k] == other;
        if k < place {
            assert(selected[k] == other);
            assert(selected[k] < selected[place]);
        } else {
            assert(selected[k + 1] == other);
            assert(selected[place] < selected[k + 1]);
        }
    }
}

/// What is in a selection after one position was put in.
proof fn lemma_insert_members(selected: Seq<nat>, place: int, at: nat, other: nat)
    requires
        0 <= place <= selected.len(),
    ensures
        selected.insert(place, at).contains(other) == (selected.contains(other) || other == at),
{
    let after = selected.insert(place, at);
    assert(after[place] == at);
    if selected.contains(other) {
        let k = choose|k: int| 0 <= k < selected.len() && selected[k] == other;
        if k < place {
            assert(after[k] == other);
        } else {
            assert(after[k + 1] == other);
        }
    }
    if after.contains(other) {
        let k = choose|k: int| 0 <= k < after.len() && after[k] == other;
        if k < place {
            assert(selected[k] == other);
        } else if k > place {
            assert(selected[k - 1] == other);
        }
    }
}

/// Toggling keeps a selection ascending.
pub proof fn lemma_toggled_ascending(selected: Seq<nat>, at: nat)
    requires
        ascending(selected),
    ensures
        ascending(toggled(selected, at)),
{
    lemma_place(selected, at);
    let place = below_count(selected, at) as int;
    let after = toggled(selected, at);
    if place < selected.len() && selected[place] == at {
        assert forall|i: int, j: int| 0 <= i < j < after.len() implies after[i] < after[j] by {
            let from_i = if i < place { i } else { i + 1 };
            let from_j = if j < place { j } else { j + 1 };
            assert(after[i] == selected[from_i]);
            assert(after[j] == selected[from_j]);
        }
    } else {
        assert forall|i: int, j: int| 0 <= i < j < after.len() implies after[i] < after[j] by {
            if i == place {
                assert(after[j] == selected[j - 1]);
                assert(selected[j - 1] >= at);
                assert(selected[place] >= at);
                if j - 1 > place {
                    assert(selected[place] < selected[j - 1]);
                }
            } else if j == place {
                assert(after[i] == selected[i]);
            } else {
                let from_i = if i < place { i } else { i - 1 };
                let from_j = if j < place { j } else { j - 1 };
                assert(after[i] == selected[from_i]);
                assert(after[j] == selected[from_j]);
            }
        }
    }
}

/// Toggling changes the membership of `at` and of no other position.
pub proof fn lemma_toggled_members(selected: Seq<nat>, at: nat, other: nat)
    requires
        ascending(selected),
    ensures
        toggled(selected, at).contains(other) == (if other == at {
            !selected.contains(other)
        } else {
            selected.contains(other)
        }),
{
    lemma_place(selected, at);
    let place = below_count(selected, at) as int;
    if place < selected.len() && selected[place] == at {
        lemma_remove_members(selected, place, other);
    } else {
        lemma_insert_members(selected, place, at, other);
        if selected.contains(at) {
            let k = choose|k: int| 0 <= k < selected.len() && selected[k] == at;
            if k > place {
                assert(selected[place] < selected[k]);
            }
        }
    }
}

impl EditorView {
    /// The state after the cursor moved by `delta` in the pane that has
    /// the focus. Moving in the type list puts the field cursor on the
    /// first field.
    pub open spec fn moved(self, delta: int) -> EditorView {
        match self.focus {
            EditorFocus::TypeList => if self.types.len() == 0 {
                self
            } else {
                EditorView {
                    selected_type: move_index(self.selected_type, delta, self.types.len()),
                    selected_field: 0,
                    ..self
                }
            },
            EditorFocus::FieldList => if self.current_fields().len() == 0 {
                self
            } else {
                EditorView {
                    selected_field: move_index(self.selected_field, delta, self.current_fields().len()),
                    ..self
                }
            },
            EditorFocus::Editing => self,
        }
    }

    /// The state after an edit of what is under the cursor began: the name
    /// of the type in the type list, the value of the field in the field
    /// list.
    pub open spec fn editing_begun(self) -> EditorView {
        match self.focus {
            EditorFocus::TypeList => if self.selected_type < self.types.len() {
                EditorView {
                    input_buffer: self.types[self.selected_type as int].name,
                    editing_target: Some(EditTarget::TypeName),
                    focus: EditorFocus::Editing,
                    status: "Editing type name"@,
                    ..self
                }
            } else {
                self
            },
            EditorFocus::FieldList => if self.has_current_field() {
                EditorView {
                    input_buffer: self.current_field().value,
                    editing_target: Some(EditTarget::FieldValue),
                    focus: EditorFocus::Editing,
                    status: "Editing field value"@,
                    ..self
                }
            } else {
                self
            },
            EditorFocus::Editing => self,
        }
    }

    /// The state after an edit ended: the focus is back on the pane that
    /// the edit came from, and nothing is pending.
    pub open spec fn editing_stopped(self) -> EditorView {
        EditorView {
            focus: match self.editing_target {
                Some(EditTarget::TypeName) => EditorFocus::TypeList,
                Some(EditTarget::FieldName) => EditorFocus::FieldList,
                Some(EditTarget::FieldValue) => EditorFocus::FieldList,
                None => self.focus,
            },
            editing_target: None,
            pending_add: None,
            input_buffer: Seq::empty(),
            ..self
        }
    }

    /// The state after the type under the cursor was toggled in the
    /// multi-selection. Multi-select mode is on exactly while something is
    /// selected.
    pub open spec fn selection_toggled(self) -> EditorView {
        if self.focus != EditorFocus::TypeList || self.types.len() == 0 {
            self
        } else {
            let selected = toggled(self.selected_types, self.selected_type);
            if selected.len() == 0 {
                EditorView {
                    multi_select: false,
                    selected_types: selected,
                    status: "Multi-select cleared"@,
                    ..self
                }
            } else {
                EditorView {
                    multi_select: true,
                    selected_types: selected,
                    status: "Selected "@ + decimal(selected.len()) + " types"@,
                    ..self
                }
            }
        }
    }

    /// The state after multi-select mode was cancelled.
    pub open spec fn selection_cleared(self) -> EditorView {
        if self.multi_select {
            EditorView {
                multi_select: false,
                selected_types: Seq::empty(),
                status: "Multi-select cleared"@,
                ..self
            }
        } else {
            self
        }
    }
}

impl Editor {
    /// Moves the cursor by `delta` in the pane that has the focus.
    pub fn move_selection(&mut self, delta: isize)
        requires
            old(self).wf(),
        ensures
            final(self)@ == old(self)@.moved(delta as int),
            final(self).wf(),
    {
        match self.focus {
            EditorFocus::TypeList => {
                if self.types.len() == 0 {
                    return;
                }
                self.selected_type = calculate_move_idx(self.selected_type, delta, self.types.len());
                self.selected_field = 0;
            },
            EditorFocus::FieldList => {
                let fields_len = self.current_fields_len();
                if fields_len == 0 {
                    return;
                }
                self.selected_field = calculate_move_idx(self.selected_field, delta, fields_len);
            },
            EditorFocus::Editing => {},
        }
    }

    /// Begins an edit of what is under the cursor.
    pub fn begin_editing(&mut self)
        requires
            old(self).wf(),
        ensures
            final(self)@ == old(self)@.editing_begun(),
            final(self).wf(),
    {
        match self.focus {
            EditorFocus::TypeList => {
                if self.selected_type < self.types.len() {
                    self.input_buffer = self.types[self.selected_type].name.clone();
                    self.editing_target = Some(EditTarget::TypeName);
                    self.focus = EditorFocus::Editing;
                    self.status = "Editing type name".to_owned();
                }
            },
            EditorFocus::FieldList => {
                let value = match self.current_field() {
                    Some(field) => Some(field.value.clone()),
                    None => None,
                };
                match value {
                    Some(value) => {
                        self.input_buffer = value;
                        self.editing_target = Some(EditTarget::FieldValue);
                        self.focus = EditorFocus::Editing;
                        self.status = "Editing field value".to_owned();
                    },
                    None => {},
                }
            },
            EditorFocus::Editing => {},
        }
    }

    /// Ends the edit in progress and gives the focus back to the pane it
    /// came from.
    pub fn stop_editing(&mut self)
        requires
            old(self).wf(),
        ensures
            final(self)@ == old(self)@.editing_stopped(),
            final(self).wf(),
    {
        self.focus = match self.editing_target {
            Some(EditTarget::TypeName) => EditorFocus::TypeList,
            Some(EditTarget::FieldName) => EditorFocus::FieldList,
            Some(EditTarget::FieldValue) => EditorFocus::FieldList,
            None => self.focus,
        };
        self.editing_target = None;
        self.pending_add = None;
        self.input_buffer.clear();
    }

    /// Toggles the type under the cursor in the multi-selection.
    pub fn toggle_type_selection(&mut self)
        requires
            old(self).wf(),
        ensures
            final(self)@ == old(self)@.selection_toggled(),
            final(self).wf(),
    {
        if self.focus != EditorFocus::TypeList || self.types.len() == 0 {
            return;
        }
        let ghost before = indices_view(self.selected_types@);
        let at = self.selected_type;
        let mut place: usize = 0;
        while place < self.selected_types.len() && self.selected_types[place] < at
            invariant
                place <= self.selected_types.len(),
                self.selected_types == old(self).selected_types,
                forall|i: int| 0 <= i < place ==> self.selected_types@[i] < at,
            decreases self.selected_types.len() - place,
        {
            place += 1;
        }
        proof {
            assert forall|i: int| place <= i < before.len() implies before[i] >= at by {
                if i > place {
                    assert(before[place as int] < before[i]);
                }
            }
            lemma_below_count(before, at as nat, place as int);
            lemma_toggled_ascending(before, at as nat);
        }
        if place < self.selected_types.len() && self.selected_types[place] == at {
            self.selected_types.remove(place);
            assert(indices_view(self.selected_types@) =~= before.remove(place as int));
        } else {
            self.selected_types.insert(place, at);
            assert(indices_view(self.selected_types@) =~= before.insert(place as int, at as nat));
        }
        let ghost after = indices_view(self.selected_types@);
        assert(after == toggled(before, at as nat));
        assert forall|i: int| 0 <= i < after.len() implies after[i] < self.types@.len() by {
            assert(after.contains(after[i]));
            lemma_toggled_members(before, at as nat, after[i]);
            if after[i] != at {
                let k = choose|k: int| 0 <= k < before.len() && before[k] == after[i];
            }
        }
        if self.selected_types.len() == 0 {
            self.multi_select = false;
            self.status = "Multi-select cleared".to_owned();
        } else {
            self.multi_select = true;
            let count = decimal_string(self.selected_types.len());
            self.status = join3("Selected ", count.as_str(), " types");
        }
    }

    /// Leaves multi-select mode and empties the multi-selection.
    pub fn clear_multi_select(&mut self)
        requires
            old(self).wf(),
        ensures
            final(self)@ == old(self)@.selection_cleared(),
            final(self).wf(),
    {
        if self.multi_select {
            self.multi_select = false;
            self.selected_types = Vec::new();
            assert(indices_view(self.selected_types@) =~= Seq::empty());
            self.status = "Multi-select cleared".to_owned();
        }
    }

    /// The positions of the types that a command acts on, ascending.
    pub fn selected_type_indices(&self) -> (r: Vec<usize>)
        ensures
            indices_view(r@) == self@.target_types(),
            self.multi_select ==> r@ == self.selected_types@,
    {
        if self.multi_select {
            let mut out: Vec<usize> = Vec::new();
            let mut i: usize = 0;
            while i < self.selected_types.len()
                invariant
                    i <= self.selected_types.len(),
                    out@ == self.selected_types@.take(i as int),
                decreases self.selected_types.len() - i,
            {
                out.push(self.selected_types[i]);
                assert(self.selected_types@.take(i as int + 1) =~= self.selected_types@.take(
                    i as int,
                ).push(self.selected_types@[i as int]));
                i += 1;
            }
            assert(self.selected_types@.take(self.selected_types.len() as int) =~= self.selected_types@);
            out
        } else if self.types.len() == 0 {
            let out: Vec<usize> = Vec::new();
            assert(indices_view(out@) =~= Seq::empty());
            out
        } else {
            let mut out: Vec<usize> = Vec::new();
            out.push(self.selected_type);
            assert(indices_view(out@) =~= seq![self.selected_type as nat]);
            out
        }
    }
}

} // verus!
