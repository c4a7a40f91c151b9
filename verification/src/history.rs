//! Undo and redo: two stacks of snapshots.

use vstd::prelude::*;
use crate::model::clone_types;
use crate::state::{
    Editor,
    EditorFocus,
    EditorSnapshot,
    EditorView,
    SnapshotView,
    snapshots_view,
};

verus! {

impl EditorView {
    /// What undo and redo keep of this state. A state that is capturing
    /// text is kept as one that shows the field list, so that restoring
    /// never lands in a half-finished edit.
    pub open spec fn snapshot(self) -> SnapshotView {
        SnapshotView {
            types: self.types,
            selected_type: self.selected_type,
            selected_field: self.selected_field,
            multi_select: self.multi_select,
            selected_types: self.selected_types,
            focus: if self.focus == EditorFocus::Editing {
                EditorFocus::FieldList
            } else {
                self.focus
            },
        }
    }

    /// This state with document, cursor, multi-selection and focus taken
    /// from a snapshot, and no edit in progress.
    pub open spec fn restored(self, snapshot: SnapshotView) -> EditorView {
        EditorView {
            types: snapshot.types,
            selected_type: snapshot.selected_type,
            selected_field: snapshot.selected_field,
            multi_select: snapshot.multi_select,
            selected_types: snapshot.selected_types,
            focus: snapshot.focus,
            editing_target: None,
            pending_add: None,
            input_buffer: Seq::empty(),
            ..self
        }
    }

    /// This state with its snapshot on top of the undo stack and an empty
    /// redo stack: what every change of the document starts with.
    pub open spec fn with_undo_frame(self) -> EditorView {
        EditorView {
            undo_stack: self.undo_stack.push(self.snapshot()),
            redo_stack: Seq::empty(),
            ..self
        }
    }

    /// The state after undo.
    pub open spec fn undone(self) -> EditorView {
        if self.undo_stack.len() == 0 {
            self.with_status("Nothing to undo"@)
        } else {
            EditorView {
                undo_stack: self.undo_stack.drop_last(),
                redo_stack: self.redo_stack.push(self.snapshot()),
                ..self
            }.restored(self.undo_stack.last()).with_status("Undid change"@)
        }
    }

    /// The state after redo.
    pub open spec fn redone(self) -> EditorView {
        if self.redo_stack.len() == 0 {
            self.with_status("Nothing to redo"@)
        } else {
            EditorView {
                undo_stack: self.undo_stack.push(self.snapshot()),
                redo_stack: self.redo_stack.drop_last(),
                ..self
            }.restored(self.redo_stack.last()).with_status("Redid change"@)
        }
    }

    /// The state after `count` undos in a row.
    pub open spec fn undone_times(self, count: nat) -> EditorView
        decreases count,
    {
        if count == 0 {
            self
        } else {
            self.undone_times((count - 1) as nat).undone()
        }
    }

    /// The state after `count` redos in a row.
    pub open spec fn redone_times(self, count: nat) -> EditorView
        decreases count,
    {
        if count == 0 {
            self
        } else {
            self.redone_times((count - 1) as nat).redone()
        }
    }
}

/// `after` follows `before` by a change of the document: the snapshot of
/// `before` went on top of the undo stack, and the redo stack is empty.
pub open spec fn framed(before: EditorView, after: EditorView) -> bool {
    &&& after.undo_stack == before.undo_stack.push(before.snapshot())
    &&& after.redo_stack.len() == 0
}

/// Every state of the run follows the one before it by a change of the
/// document.
pub open spec fn framed_run(states: Seq<EditorView>) -> bool {
    forall|i: int| 0 <= i < states.len() - 1 ==> framed(#[trigger] states[i], states[i + 1])
}

/// A snapshot of a state is well-formed if the state is.
pub proof fn lemma_snapshot_wf(state: EditorView)
    requires
        state.wf(),
    ensures
        state.snapshot().wf(),
{
}

/// Restoring a snapshot and taking a snapshot again gives the same
/// snapshot, for a snapshot that is not in the middle of an edit.
pub proof fn lemma_restore_then_snapshot(state: EditorView, snapshot: SnapshotView)
    requires
        snapshot.focus != EditorFocus::Editing,
    ensures
        state.restored(snapshot).snapshot() == snapshot,
{
}

/// After `count` undos at the end of a run of changes, the editor is back
/// at the state that stood `count` changes earlier, and the states undone
/// wait on the redo stack, the latest at the bottom.
proof fn lemma_undo_steps(states: Seq<EditorView>, count: nat)
    requires
        states.len() > 0,
        framed_run(states),
        count < states.len(),
    ensures
        ({
            let last = states.len() - 1;
            let reached = states.last().undone_times(count);
            &&& reached.snapshot() == states[last - count].snapshot()
            &&& reached.undo_stack == states[last - count].undo_stack
            &&& reached.redo_stack.len() == states.last().redo_stack.len() + count
            &&& forall|j: int|
                0 <= j < count ==> #[trigger] reached.redo_stack[states.last().redo_stack.len() + j]
                    == states[last - j].snapshot()
        }),
    decreases count,
{
    let last = states.len() - 1;
    if count > 0 {
        lemma_undo_steps(states, (count - 1) as nat);
        let previous = states.last().undone_times((count - 1) as nat);
        let reached = previous.undone();
        assert(reached == states.last().undone_times(count));
        assert(framed(states[last - count], states[last - count + 1]));
        let frame = states[last - count].snapshot();
        assert(previous.undo_stack == states[last - count].undo_stack.push(frame));
        assert(previous.undo_stack.last() == frame);
        assert(previous.undo_stack.drop_last() =~= states[last - count].undo_stack);
        assert(reached.redo_stack == previous.redo_stack.push(previous.snapshot()));
    }
}

/// After all changes of a run were undone, `count` redos bring the editor
/// to the state that stood after the first `count` changes.
proof fn lemma_redo_steps(states: Seq<EditorView>, count: nat)
    requires
        states.len() > 0,
        framed_run(states),
        count < states.len(),
    ensures
        ({
            let last = states.len() - 1;
            let bottom = states.last().undone_times(last as nat);
            let reached = bottom.redone_times(count);
            &&& reached.snapshot() == states[count as int].snapshot()
            &&& reached.redo_stack == bottom.redo_stack.take(
                states.last().redo_stack.len() + last - count,
            )
        }),
    decreases count,
{
    let last = states.len() - 1;
    let bottom = states.last().undone_times(last as nat);
    let kept = states.last().redo_stack.len() as int;
    lemma_undo_steps(states, last as nat);
    if count == 0 {
        assert(bottom.redo_stack.take(kept + last) =~= bottom.redo_stack);
    } else {
        lemma_redo_steps(states, (count - 1) as nat);
        let previous = bottom.redone_times((count - 1) as nat);
        let reached = previous.redone();
        assert(reached == bottom.redone_times(count));
        assert(previous.redo_stack == bottom.redo_stack.take(kept + last - count + 1));
        assert(previous.redo_stack.last() == bottom.redo_stack[kept + (last - count)]);
        assert(bottom.redo_stack[kept + (last - count)] == states[last - (last - count)].snapshot());
        assert(previous.redo_stack.drop_last() =~= bottom.redo_stack.take(kept + last - count));
    }
}

/// Undo and redo are symmetric. After a run of changes, as many undos as
/// there were changes bring back document, cursor and multi-selection of
/// the state before the first change; as many redos after that bring back
/// those of the state after the last change.
pub proof fn lemma_undo_redo_symmetry(states: Seq<EditorView>)
    requires
        states.len() > 0,
        framed_run(states),
    ensures
        ({
            let changes = (states.len() - 1) as nat;
            let bottom = states.last().undone_times(changes);
            &&& bottom.snapshot() == states.first().snapshot()
            &&& bottom.redone_times(changes).snapshot() == states.last().snapshot()
        }),
{
    let changes = (states.len() - 1) as nat;
    lemma_undo_steps(states, changes);
    lemma_redo_steps(states, changes);
}

/// A change of the document after an undo leaves nothing to redo.
pub proof fn lemma_change_discards_redo(before: EditorView, after: EditorView)
    requires
        framed(before, after),
    ensures
        after.redone() == after.with_status("Nothing to redo"@),
{
}

/// Copies a list of positions.
fn clone_indices(indices: &Vec<usize>) -> (r: Vec<usize>)
    ensures
        r@ == indices@,
{
    let mut out: Vec<usize> = Vec::new();
    let mut i: usize = 0;
    while i < indices.len()
        invariant
            i <= indices.len(),
            out@ == indices@.take(i as int),
        decreases indices.len() - i,
    {
        out.push(indices[i]);
        assert(indices@.take(i as int + 1) =~= indices@.take(i as int).push(indices@[i as int]));
        i += 1;
    }
    assert(indices@.take(indices.len() as int) =~= indices@);
    out
}

impl Editor {
    /// A copy of document, cursor, multi-selection and focus.
    pub fn snapshot(&self) -> (r: EditorSnapshot)
        ensures
            r@ == self@.snapshot(),
    {
        EditorSnapshot {
            types: clone_types(&self.types),
            selected_type: self.selected_type,
            selected_field: self.selected_field,
            multi_select: self.multi_select,
            selected_types: clone_indices(&self.selected_types),
            focus: match self.focus {
                EditorFocus::Editing => EditorFocus::FieldList,
                other => other,
            },
        }
    }

    /// Takes document, cursor, multi-selection and focus from a snapshot
    /// and ends any edit in progress.
    pub fn restore_snapshot(&mut self, snapshot: EditorSnapshot)
        ensures
            final(self)@ == old(self)@.restored(snapshot@),
    {
        self.types = snapshot.types;
        self.selected_type = snapshot.selected_type;
        self.selected_field = snapshot.selected_field;
        self.multi_select = snapshot.multi_select;
        self.selected_types = snapshot.selected_types;
        self.focus = snapshot.focus;
        self.editing_target = None;
        self.pending_add = None;
        self.input_buffer.clear();
    }

    /// Puts a snapshot of the current state on the undo stack and empties
    /// the redo stack.
    pub fn push_undo(&mut self)
        ensures
            final(self)@ == old(self)@.with_undo_frame(),
            final(self).types == old(self).types,
            final(self).selected_types == old(self).selected_types,
            final(self).pending_add == old(self).pending_add,
            final(self).path == old(self).path,
            old(self).wf() ==> final(self).wf(),
    {
        let frame = self.snapshot();
        self.undo_stack.push(frame);
        self.redo_stack = Vec::new();
        assert(snapshots_view(self.undo_stack@) =~= snapshots_view(old(self).undo_stack@).push(frame@));
        assert(snapshots_view(self.redo_stack@) =~= Seq::empty());
    }

    /// Goes back to the state before the last change, if there is one.
    pub fn undo(&mut self)
        requires
            old(self).wf(),
        ensures
            final(self)@ == old(self)@.undone(),
            final(self).wf(),
    {
        let current = self.snapshot();
        match self.undo_stack.pop() {
            Some(previous) => {
                assert(snapshots_view(self.undo_stack@) =~= snapshots_view(
                    old(self).undo_stack@,
                ).drop_last());
                assert(previous@ == snapshots_view(old(self).undo_stack@).last());
                self.redo_stack.push(current);
                assert(snapshots_view(self.redo_stack@) =~= snapshots_view(old(self).redo_stack@).push(
                    current@,
                ));
                self.restore_snapshot(previous);
                self.status = "Undid change".to_owned();
                proof {
                    lemma_snapshot_wf(old(self)@);
                }
            },
            None => {
                self.status = "Nothing to undo".to_owned();
            },
        }
    }

    /// Goes forward again to the state that the last undo left.
    pub fn redo(&mut self)
        requires
            old(self).wf(),
        ensures
            final(self)@ == old(self)@.redone(),
            final(self).wf(),
    {
        let current = self.snapshot();
        match self.redo_stack.pop() {
            Some(next) => {
                assert(snapshots_view(self.redo_stack@) =~= snapshots_view(
                    old(self).redo_stack@,
                ).drop_last());
                assert(next@ == snapshots_view(old(self).redo_stack@).last());
                self.undo_stack.push(current);
                assert(snapshots_view(self.undo_stack@) =~= snapshots_view(old(self).undo_stack@).push(
                    current@,
                ));
                self.restore_snapshot(next);
                self.status = "Redid change".to_owned();
                proof {
                    lemma_snapshot_wf(old(self)@);
                }
            },
            None => {
                self.status = "Nothing to redo".to_owned();
            },
        }
    }
}

} // verus!
