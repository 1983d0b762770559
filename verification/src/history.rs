//! The edit history of one project: every change of a field of a line is
//! recorded as a diff, fine-grained diffs of one gesture are folded into one
//! undoable entry, and undo and redo walk the entries.

use vstd::prelude::*;
use crate::project::{
    lemma_read_after_write, lemma_write_absent, lemma_write_same, lemma_write_twice, Field,
    ProjectView, Value, ValueView, VoiceVoxProject,
};
use crate::scalar::Scalar;
use crate::views::{
    lemma_seq_view_add, lemma_seq_view_drop_last, lemma_seq_view_push, opt_view, seq_view,
};

verus! {

/// What a diff is: the field it changes, the key of the line it changes, and
/// the value of the field before and after the change.
pub struct DiffView {
    pub kind: Field,
    pub target: Seq<char>,
    pub before: ValueView,
    pub after: ValueView,
}

impl DiffView {
    /// Whether both values are of the shape that the field holds.
    pub open spec fn well_typed(self) -> bool {
        self.before.fits(self.kind) && self.after.fits(self.kind)
    }

    /// Whether `self` and `last` change the same field of the same line, so
    /// that a run of diffs from `self` to `last` folds into one.
    pub open spec fn folds_with(self, last: DiffView) -> bool {
        self.kind == last.kind && self.target == last.target
    }

    /// The one diff that stands for a run of diffs from `self` to `last`: it
    /// goes from the value before the first to the value after the last.
    pub open spec fn folded(self, last: DiffView) -> DiffView {
        DiffView { kind: self.kind, target: self.target, before: self.before, after: last.after }
    }
}

/// One change of one field of one line.
///
/// `before` and `after` are snapshots of the field's value. A diff handed to
/// [`History::apply`] carries the wanted value in `after` and anything in
/// `before`, which `apply` fills in from the project.
#[derive(Debug, PartialEq)]
#[allow(inconsistent_fields)]
pub enum Diff {
    Text { audio_item_key: String, before: String, after: String },
    Pitch { audio_item_key: String, before: Scalar, after: Scalar },
    Speed { audio_item_key: String, before: Scalar, after: Scalar },
    Intonation { audio_item_key: String, before: Scalar, after: Scalar },
    Volume { audio_item_key: String, before: Scalar, after: Scalar },
    PrePhonemeLength { audio_item_key: String, before: Scalar, after: Scalar },
    PostPhonemeLength { audio_item_key: String, before: Scalar, after: Scalar },
    CharacterChange { audio_item_key: String, before: i32, after: i32 },
}

impl View for Diff {
    type V = DiffView;

    open spec fn view(&self) -> DiffView {
        match self {
            Diff::Text { audio_item_key, before, after } => DiffView {
                kind: Field::Text,
                target: audio_item_key@,
                before: ValueView::Text(before@),
                after: ValueView::Text(after@),
            },
            Diff::Pitch { audio_item_key, before, after } => DiffView {
                kind: Field::Pitch,
                target: audio_item_key@,
                before: ValueView::Number(*before),
                after: ValueView::Number(*after),
            },
            Diff::Speed { audio_item_key, before, after } => DiffView {
                kind: Field::Speed,
                target: audio_item_key@,
                before: ValueView::Number(*before),
                after: ValueView::Number(*after),
            },
            Diff::Intonation { audio_item_key, before, after } => DiffView {
                kind: Field::Intonation,
                target: audio_item_key@,
                before: ValueView::Number(*before),
                after: ValueView::Number(*after),
            },
            Diff::Volume { audio_item_key, before, after } => DiffView {
                kind: Field::Volume,
                target: audio_item_key@,
                before: ValueView::Number(*before),
                after: ValueView::Number(*after),
            },
            Diff::PrePhonemeLength { audio_item_key, before, after } => DiffView {
                kind: Field::PrePhonemeLength,
                target: audio_item_key@,
                before: ValueView::Number(*before),
                after: ValueView::Number(*after),
            },
            Diff::PostPhonemeLength { audio_item_key, before, after } => DiffView {
                kind: Field::PostPhonemeLength,
                target: audio_item_key@,
                before: ValueView::Number(*before),
                after: ValueView::Number(*after),
            },
            Diff::CharacterChange { audio_item_key, before, after } => DiffView {
                kind: Field::Style,
                target: audio_item_key@,
                before: ValueView::Style(*before),
                after: ValueView::Style(*after),
            },
        }
    }
}

impl Clone for Diff {
    fn clone(&self) -> (r: Self)
        ensures
            r == *self,
    {
        match self {
            Diff::Text { audio_item_key, before, after } => Diff::Text {
                audio_item_key: audio_item_key.clone(),
                before: before.clone(),
                after: after.clone(),
            },
            Diff::Pitch { audio_item_key, before, after } => Diff::Pitch {
                audio_item_key: audio_item_key.clone(),
                before: *before,
                after: *after,
            },
            Diff::Speed { audio_item_key, before, after } => Diff::Speed {
                audio_item_key: audio_item_key.clone(),
                before: *before,
                after: *after,
            },
            Diff::Intonation { audio_item_key, before, after } => Diff::Intonation {
                audio_item_key: audio_item_key.clone(),
                before: *before,
                after: *after,
            },
            Diff::Volume { audio_item_key, before, after } => Diff::Volume {
                audio_item_key: audio_item_key.clone(),
                before: *before,
                after: *after,
            },
            Diff::PrePhonemeLength { audio_item_key, before, after } => Diff::PrePhonemeLength {
                audio_item_key: audio_item_key.clone(),
                before: *before,
                after: *after,
            },
            Diff::PostPhonemeLength { audio_item_key, before, after } => Diff::PostPhonemeLength {
                audio_item_key: audio_item_key.clone(),
                before: *before,
                after: *after,
            },
            Diff::CharacterChange { audio_item_key, before, after } => Diff::CharacterChange {
                audio_item_key: audio_item_key.clone(),
                before: *before,
                after: *after,
            },
        }
    }
}

impl Diff {
    /// A diff of the given field of the line named `audio_item_key`, or `None`
    /// where the two values are not both of the shape that the field holds.
    pub fn new(kind: Field, audio_item_key: String, before: Value, after: Value) -> (r: Option<Diff>)
        ensures
            r.is_some() <==> before@.fits(kind) && after@.fits(kind),
            r.is_some() ==> r.unwrap()@ == (DiffView {
                kind,
                target: audio_item_key@,
                before: before@,
                after: after@,
            }),
    {
        match (before, after) {
            (Value::Text(before), Value::Text(after)) => match kind {
                Field::Text => Some(Diff::Text { audio_item_key, before, after }),
                _ => None,
            },
            (Value::Style(before), Value::Style(after)) => match kind {
                Field::Style => Some(Diff::CharacterChange { audio_item_key, before, after }),
                _ => None,
            },
            (Value::Number(before), Value::Number(after)) => match kind {
                Field::Pitch => Some(Diff::Pitch { audio_item_key, before, after }),
                Field::Speed => Some(Diff::Speed { audio_item_key, before, after }),
                Field::Intonation => Some(Diff::Intonation { audio_item_key, before, after }),
                Field::Volume => Some(Diff::Volume { audio_item_key, before, after }),
                Field::PrePhonemeLength => Some(
                    Diff::PrePhonemeLength { audio_item_key, before, after },
                ),
                Field::PostPhonemeLength => Some(
                    Diff::PostPhonemeLength { audio_item_key, before, after },
                ),
                _ => None,
            },
            _ => None,
        }
    }

    /// The field that the diff changes.
    pub fn kind(&self) -> (r: Field)
        ensures
            r == self@.kind,
    {
        match self {
            Diff::Text { .. } => Field::Text,
            Diff::Pitch { .. } => Field::Pitch,
            Diff::Speed { .. } => Field::Speed,
            Diff::Intonation { .. } => Field::Intonation,
            Diff::Volume { .. } => Field::Volume,
            Diff::PrePhonemeLength { .. } => Field::PrePhonemeLength,
            Diff::PostPhonemeLength { .. } => Field::PostPhonemeLength,
            Diff::CharacterChange { .. } => Field::Style,
        }
    }

    /// The key of the line that the diff changes.
    pub fn audio_item_key(&self) -> (r: &String)
        ensures
            r@ == self@.target,
    {
        match self {
            Diff::Text { audio_item_key, .. } => audio_item_key,
            Diff::Pitch { audio_item_key, .. } => audio_item_key,
            Diff::Speed { audio_item_key, .. } => audio_item_key,
            Diff::Intonation { audio_item_key, .. } => audio_item_key,
            Diff::Volume { audio_item_key, .. } => audio_item_key,
            Diff::PrePhonemeLength { audio_item_key, .. } => audio_item_key,
            Diff::PostPhonemeLength { audio_item_key, .. } => audio_item_key,
            Diff::CharacterChange { audio_item_key, .. } => audio_item_key,
        }
    }

    /// The value of the field before the change.
    pub fn before(&self) -> (r: Value)
        ensures
            r@ == self@.before,
    {
        match self {
            Diff::Text { before, .. } => Value::Text(before.clone()),
            Diff::Pitch { before, .. } => Value::Number(*before),
            Diff::Speed { before, .. } => Value::Number(*before),
            Diff::Intonation { before, .. } => Value::Number(*before),
            Diff::Volume { before, .. } => Value::Number(*before),
            Diff::PrePhonemeLength { before, .. } => Value::Number(*before),
            Diff::PostPhonemeLength { before, .. } => Value::Number(*before),
            Diff::CharacterChange { before, .. } => Value::Style(*before),
        }
    }

    /// The value of the field after the change.
    pub fn after(&self) -> (r: Value)
        ensures
            r@ == self@.after,
    {
        match self {
            Diff::Text { after, .. } => Value::Text(after.clone()),
            Diff::Pitch { after, .. } => Value::Number(*after),
            Diff::Speed { after, .. } => Value::Number(*after),
            Diff::Intonation { after, .. } => Value::Number(*after),
            Diff::Volume { after, .. } => Value::Number(*after),
            Diff::PrePhonemeLength { after, .. } => Value::Number(*after),
            Diff::PostPhonemeLength { after, .. } => Value::Number(*after),
            Diff::CharacterChange { after, .. } => Value::Style(*after),
        }
    }

    /// Every diff is well typed: its two values are of the shape that its
    /// field holds.
    pub proof fn lemma_well_typed(self)
        ensures
            self@.well_typed(),
    {
    }
}

impl DiffView {
    /// The diff with `before` filled in from the project: the value that the
    /// targeted field holds. Where the project has no such field (no line has
    /// the key, or the line has no audio query for a parameter), the diff is
    /// left as it is.
    pub open spec fn completed_in(self, project: ProjectView) -> DiffView {
        match project.field(self.target, self.kind) {
            Some(current) => DiffView { before: current, ..self },
            None => self,
        }
    }

    /// The project with the diff's `after` value written to the targeted
    /// field.
    pub open spec fn applied_to(self, project: ProjectView) -> ProjectView {
        project.with_field(self.target, self.kind, self.after)
    }

    /// The project with the diff's `before` value written to the targeted
    /// field.
    pub open spec fn reverted_in(self, project: ProjectView) -> ProjectView {
        project.with_field(self.target, self.kind, self.before)
    }
}

/// What a history is: the committed edits that can be undone, the undone
/// edits that can be redone, and the edits of the gesture in progress. Each
/// sequence has its most recent diff last.
pub struct HistoryView {
    pub undo_stack: Seq<DiffView>,
    pub redo_stack: Seq<DiffView>,
    pub pending_buffer: Seq<DiffView>,
}

impl HistoryView {
    /// The history of a project that has not been edited.
    pub open spec fn empty() -> HistoryView {
        HistoryView {
            undo_stack: Seq::empty(),
            redo_stack: Seq::empty(),
            pending_buffer: Seq::empty(),
        }
    }

    /// Whether every diff of the history is well typed.
    pub open spec fn well_typed(self) -> bool {
        &&& forall|i: int| 0 <= i < self.undo_stack.len() ==> (#[trigger] self.undo_stack[i]).well_typed()
        &&& forall|i: int| 0 <= i < self.redo_stack.len() ==> (#[trigger] self.redo_stack[i]).well_typed()
        &&& forall|i: int|
            0 <= i < self.pending_buffer.len() ==> (#[trigger] self.pending_buffer[i]).well_typed()
    }

    /// The history after an edit: the completed diff joins the gesture in
    /// progress, and what could be redone is forgotten.
    pub open spec fn applied(self, completed: DiffView) -> HistoryView {
        HistoryView {
            undo_stack: self.undo_stack,
            redo_stack: Seq::empty(),
            pending_buffer: self.pending_buffer.push(completed),
        }
    }

    /// Whether the gesture in progress folds into one entry: it has a diff,
    /// and its first and last diff change the same field of the same line.
    pub open spec fn folds(self) -> bool {
        self.pending_buffer.len() > 0 && self.pending_buffer.first().folds_with(
            self.pending_buffer.last(),
        )
    }

    /// The history after the gesture in progress is committed. An empty
    /// gesture changes nothing. A gesture that folds becomes one entry, from
    /// the value before its first diff to the value after its last. Any other
    /// gesture is moved to the undo stack diff by diff, in order.
    pub open spec fn committed(self) -> HistoryView {
        if self.pending_buffer.len() == 0 {
            self
        } else if self.folds() {
            HistoryView {
                undo_stack: self.undo_stack.push(
                    self.pending_buffer.first().folded(self.pending_buffer.last()),
                ),
                redo_stack: self.redo_stack,
                pending_buffer: Seq::empty(),
            }
        } else {
            HistoryView {
                undo_stack: self.undo_stack + self.pending_buffer,
                redo_stack: self.redo_stack,
                pending_buffer: Seq::empty(),
            }
        }
    }

    /// The history after one undo: the last committed entry moves to the redo
    /// stack. With nothing to undo, nothing changes.
    pub open spec fn undone(self) -> HistoryView {
        if self.undo_stack.len() == 0 {
            self
        } else {
            HistoryView {
                undo_stack: self.undo_stack.drop_last(),
                redo_stack: self.redo_stack.push(self.undo_stack.last()),
                pending_buffer: self.pending_buffer,
            }
        }
    }

    /// The project after one undo: the field of the last committed entry
    /// holds the entry's `before` again. With nothing to undo, nothing
    /// changes.
    pub open spec fn undo_in(self, project: ProjectView) -> ProjectView {
        if self.undo_stack.len() == 0 {
            project
        } else {
            self.undo_stack.last().reverted_in(project)
        }
    }

    /// The history after one redo: the last undone entry moves back to the
    /// undo stack. With nothing to redo, nothing changes.
    pub open spec fn redone(self) -> HistoryView {
        if self.redo_stack.len() == 0 {
            self
        } else {
            HistoryView {
                undo_stack: self.undo_stack.push(self.redo_stack.last()),
                redo_stack: self.redo_stack.drop_last(),
                pending_buffer: self.pending_buffer,
            }
        }
    }

    /// The project after one redo: the field of the last undone entry holds
    /// the entry's `after` again. With nothing to redo, nothing changes.
    pub open spec fn redo_in(self, project: ProjectView) -> ProjectView {
        if self.redo_stack.len() == 0 {
            project
        } else {
            self.redo_stack.last().applied_to(project)
        }
    }
}

/// What became of the gesture in progress when it was committed.
#[derive(Clone, Copy, Debug, PartialEq, Eq, Structural)]
pub enum Commit {
    /// There was no diff to commit.
    Nothing,
    /// The gesture was folded into one entry.
    Folded,
    /// The first and the last diff of the gesture did not change the same
    /// field of the same line, and every diff became an entry of its own.
    Flushed,
}

/// The undo and redo history of one project.
#[derive(Debug, Clone, PartialEq)]
pub struct History {
    undo_stack: Vec<Diff>,
    redo_stack: Vec<Diff>,
    unsquashed_buffer: Vec<Diff>,
}

impl View for History {
    type V = HistoryView;

    closed spec fn view(&self) -> HistoryView {
        HistoryView {
            undo_stack: seq_view(self.undo_stack@),
            redo_stack: seq_view(self.redo_stack@),
            pending_buffer: seq_view(self.unsquashed_buffer@),
        }
    }
}

impl Diff {
    /// The diff with `before` replaced by `value`, or unchanged where the
    /// value is not of the shape that the diff's field holds.
    pub fn with_before(self, value: Value) -> (r: Diff)
        ensures
            r@ == (if value@.fits(self@.kind) {
                DiffView { before: value@, ..self@ }
            } else {
                self@
            }),
    {
        match (self, value) {
            (Diff::Text { audio_item_key, before: _, after }, Value::Text(before)) => Diff::Text {
                audio_item_key,
                before,
                after,
            },
            (Diff::Pitch { audio_item_key, before: _, after }, Value::Number(before)) => Diff::Pitch {
                audio_item_key,
                before,
                after,
            },
            (Diff::Speed { audio_item_key, before: _, after }, Value::Number(before)) => Diff::Speed {
                audio_item_key,
                before,
                after,
            },
            (
                Diff::Intonation { audio_item_key, before: _, after },
                Value::Number(before),
            ) => Diff::Intonation { audio_item_key, before, after },
            (Diff::Volume { audio_item_key, before: _, after }, Value::Number(before)) => Diff::Volume {
                audio_item_key,
                before,
                after,
            },
            (
                Diff::PrePhonemeLength { audio_item_key, before: _, after },
                Value::Number(before),
            ) => Diff::PrePhonemeLength { audio_item_key, before, after },
            (
                Diff::PostPhonemeLength { audio_item_key, before: _, after },
                Value::Number(before),
            ) => Diff::PostPhonemeLength { audio_item_key, before, after },
            (
                Diff::CharacterChange { audio_item_key, before: _, after },
                Value::Style(before),
            ) => Diff::CharacterChange { audio_item_key, before, after },
            (diff, _) => diff,
        }
    }

    /// The diff with `after` replaced by `value`, or unchanged where the
    /// value is not of the shape that the diff's field holds.
    pub fn with_after(self, value: Value) -> (r: Diff)
        ensures
            r@ == (if value@.fits(self@.kind) {
                DiffView { after: value@, ..self@ }
            } else {
                self@
            }),
    {
        match (self, value) {
            (Diff::Text { audio_item_key, before, after: _ }, Value::Text(after)) => Diff::Text {
                audio_item_key,
                before,
                after,
            },
            (Diff::Pitch { audio_item_key, before, after: _ }, Value::Number(after)) => Diff::Pitch {
                audio_item_key,
                before,
                after,
            },
            (Diff::Speed { audio_item_key, before, after: _ }, Value::Number(after)) => Diff::Speed {
                audio_item_key,
                before,
                after,
            },
            (
                Diff::Intonation { audio_item_key, before, after: _ },
                Value::Number(after),
            ) => Diff::Intonation { audio_item_key, before, after },
            (Diff::Volume { audio_item_key, before, after: _ }, Value::Number(after)) => Diff::Volume {
                audio_item_key,
                before,
                after,
            },
            (
                Diff::PrePhonemeLength { audio_item_key, before, after: _ },
                Value::Number(after),
            ) => Diff::PrePhonemeLength { audio_item_key, before, after },
            (
                Diff::PostPhonemeLength { audio_item_key, before, after: _ },
                Value::Number(after),
            ) => Diff::PostPhonemeLength { audio_item_key, before, after },
            (
                Diff::CharacterChange { audio_item_key, before, after: _ },
                Value::Style(after),
            ) => Diff::CharacterChange { audio_item_key, before, after },
            (diff, _) => diff,
        }
    }

    /// Whether `self` and `last` change the same field of the same line.
    pub fn folds_with(&self, last: &Diff) -> (r: bool)
        ensures
            r == self@.folds_with(last@),
    {
        self.kind() == last.kind() && *self.audio_item_key() == *last.audio_item_key()
    }

    /// The one diff that stands for a run of diffs from `self` to `last`: it
    /// goes from the value before `self` to the value after `last`. Where the
    /// two do not change the same field, there is no such diff, and the
    /// answer is a copy of `self`.
    pub fn squash(&self, last: &Diff) -> (r: Diff)
        ensures
            r@ == (if self@.kind == last@.kind {
                self@.folded(last@)
            } else {
                self@
            }),
    {
        if self.kind() == last.kind() {
            self.clone().with_after(last.after())
        } else {
            self.clone()
        }
    }

    /// Writes the diff's `after` value to the field it targets.
    pub fn apply_to(&self, project: &mut VoiceVoxProject)
        ensures
            final(project)@ == self@.applied_to(old(project)@),
    {
        project.set_field(self.audio_item_key(), self.kind(), self.after());
    }

    /// Writes the diff's `before` value to the field it targets.
    pub fn revert_in(&self, project: &mut VoiceVoxProject)
        ensures
            final(project)@ == self@.reverted_in(old(project)@),
    {
        project.set_field(self.audio_item_key(), self.kind(), self.before());
    }
}

impl History {
    /// The history of a project that has not been edited.
    pub fn new() -> (r: History)
        ensures
            r@ == HistoryView::empty(),
    {
        let r = History {
            undo_stack: Vec::new(),
            redo_stack: Vec::new(),
            unsquashed_buffer: Vec::new(),
        };
        assert(r@.undo_stack =~= Seq::<DiffView>::empty());
        assert(r@.redo_stack =~= Seq::<DiffView>::empty());
        assert(r@.pending_buffer =~= Seq::<DiffView>::empty());
        r
    }

    /// The committed edits, most recent last.
    pub fn undo_stack(&self) -> (r: &Vec<Diff>)
        ensures
            seq_view(r@) == self@.undo_stack,
    {
        &self.undo_stack
    }

    /// The undone edits, most recently undone last.
    pub fn redo_stack(&self) -> (r: &Vec<Diff>)
        ensures
            seq_view(r@) == self@.redo_stack,
    {
        &self.redo_stack
    }

    /// The edits of the gesture in progress, most recent last.
    pub fn pending_buffer(&self) -> (r: &Vec<Diff>)
        ensures
            seq_view(r@) == self@.pending_buffer,
    {
        &self.unsquashed_buffer
    }

    /// Every diff that a history holds is well typed.
    pub proof fn lemma_well_typed(&self)
        ensures
            self@.well_typed(),
    {
    }

    /// Records an edit and carries it out.
    ///
    /// `diff` names the field and the line, and holds the wanted value in
    /// `after`; its `before` is filled in from the project. The wanted value
    /// is written to the project, the redo stack is emptied, and the
    /// completed diff joins the gesture in progress and is handed back. Where
    /// the project has no such field, the project is unchanged and the diff is
    /// recorded as it came.
    pub fn apply(&mut self, diff: Diff, project: &mut VoiceVoxProject) -> (r: Diff)
        ensures
            r@ == diff@.completed_in(old(project)@),
            final(project)@ == diff@.applied_to(old(project)@),
            final(self)@ == old(self)@.applied(r@),
            final(self)@.redo_stack.len() == 0,
    {
        let current = project.field(diff.audio_item_key(), diff.kind());
        let completed = match current {
            Some(value) => diff.with_before(value),
            None => diff,
        };
        completed.apply_to(project);
        self.redo_stack.clear();
        proof {
            lemma_seq_view_push(self.unsquashed_buffer@, completed);
            assert(seq_view(self.redo_stack@) =~= Seq::<DiffView>::empty());
        }
        self.unsquashed_buffer.push(completed.clone());
        completed
    }

    /// Commits the gesture in progress.
    ///
    /// An empty gesture changes nothing. Where the first and the last diff of
    /// the gesture change the same field of the same line, the gesture becomes
    /// one entry of the undo stack, from the value before the first diff to
    /// the value after the last. Otherwise every diff becomes an entry of its
    /// own, in order. Either way the gesture is over, and the redo stack is
    /// untouched.
    pub fn commit(&mut self) -> (r: Commit)
        ensures
            final(self)@ == old(self)@.committed(),
            final(self)@.pending_buffer.len() == 0,
            final(self)@.redo_stack == old(self)@.redo_stack,
            final(self)@.undo_stack.len() >= old(self)@.undo_stack.len(),
            r == (if old(self)@.pending_buffer.len() == 0 {
                Commit::Nothing
            } else if old(self)@.folds() {
                Commit::Folded
            } else {
                Commit::Flushed
            }),
    {
        let n = self.unsquashed_buffer.len();
        if n == 0 {
            assert(self@.pending_buffer =~= Seq::<DiffView>::empty());
            return Commit::Nothing;
        }
        let ghost pending = self.unsquashed_buffer@;
        let ghost undo = self.undo_stack@;
        if self.unsquashed_buffer[0].folds_with(&self.unsquashed_buffer[n - 1]) {
            let entry = self.unsquashed_buffer[0].squash(&self.unsquashed_buffer[n - 1]);
            self.unsquashed_buffer.clear();
            self.undo_stack.push(entry);
            proof {
                lemma_seq_view_push(undo, entry);
                assert(seq_view(self.unsquashed_buffer@) =~= Seq::<DiffView>::empty());
            }
            Commit::Folded
        } else {
            self.undo_stack.append(&mut self.unsquashed_buffer);
            proof {
                lemma_seq_view_add(undo, pending);
                assert(seq_view(self.unsquashed_buffer@) =~= Seq::<DiffView>::empty());
            }
            Commit::Flushed
        }
    }

    /// Undoes the last committed edit: the entry moves to the redo stack and
    /// its `before` value is written back to the project. With nothing to
    /// undo, nothing changes.
    pub fn undo(&mut self, project: &mut VoiceVoxProject)
        ensures
            final(self)@ == old(self)@.undone(),
            final(project)@ == old(self)@.undo_in(old(project)@),
            old(self)@.undo_stack.len() == 0 ==> final(self)@ == old(self)@ && final(project)@ == old(
                project,
            )@,
            final(self)@.undo_stack.len() + final(self)@.redo_stack.len() == old(
                self,
            )@.undo_stack.len() + old(self)@.redo_stack.len(),
    {
        let ghost undo = self.undo_stack@;
        let ghost redo = self.redo_stack@;
        match self.undo_stack.pop() {
            Some(diff) => {
                proof {
                    lemma_seq_view_drop_last(undo);
                    lemma_seq_view_push(redo, diff);
                }
                diff.revert_in(project);
                self.redo_stack.push(diff);
            },
            None => {},
        }
    }

    /// Redoes the last undone edit: the entry moves back to the undo stack
    /// and its `after` value is written to the project. With nothing to redo,
    /// nothing changes.
    pub fn redo(&mut self, project: &mut VoiceVoxProject)
        ensures
            final(self)@ == old(self)@.redone(),
            final(project)@ == old(self)@.redo_in(old(project)@),
            old(self)@.redo_stack.len() == 0 ==> final(self)@ == old(self)@ && final(project)@ == old(
                project,
            )@,
            final(self)@.undo_stack.len() + final(self)@.redo_stack.len() == old(
                self,
            )@.undo_stack.len() + old(self)@.redo_stack.len(),
    {
        let ghost undo = self.undo_stack@;
        let ghost redo = self.redo_stack@;
        match self.redo_stack.pop() {
            Some(diff) => {
                proof {
                    lemma_seq_view_drop_last(redo);
                    lemma_seq_view_push(undo, diff);
                }
                diff.apply_to(project);
                self.undo_stack.push(diff);
            },
            None => {},
        }
    }
}

/// Round trip. An edit that is applied and committed is taken back by one
/// undo, which leaves the project as it was before the edit, and brought back
/// by one redo, which leaves the project as the edit left it; a further undo
/// takes it back again.
///
/// Where the edit joins a gesture in progress that it folds with, the undo
/// goes back to the start of the gesture. The law then asks that the project
/// still holds the value from which the gesture started.
pub proof fn lemma_round_trip(history: HistoryView, project: ProjectView, template: DiffView)
    requires
        history.well_typed(),
        history.pending_buffer.len() > 0 && history.pending_buffer.first().folds_with(template)
            ==> history.pending_buffer.first().reverted_in(project) == project,
    ensures
        ({
            let edit = template.completed_in(project);
            let edited = template.applied_to(project);
            let committed = history.applied(edit).committed();
            let undone = committed.undo_in(edited);
            let redone = committed.undone().redo_in(undone);
            &&& undone == project
            &&& redone == edited
            &&& committed.undone().redone() == committed
            &&& committed.undone().redone().undo_in(redone) == project
        }),
{
    let edit = template.completed_in(project);
    let edited = template.applied_to(project);
    let applied = history.applied(edit);
    let committed = applied.committed();
    let key = template.target;
    let kind = template.kind;
    let top = committed.undo_stack.last();
    assert(applied.pending_buffer.last() == edit);
    assert(top.kind == kind && top.target == key && top.after == template.after);
    assert(committed.undo_stack.len() > 0);
    // the project before the edit is the project with `top.before` written
    assert(project.with_field(key, kind, top.before) == project) by {
        if applied.folds() && history.pending_buffer.len() > 0 {
            assert(applied.pending_buffer.first() == history.pending_buffer.first());
        } else {
            if applied.folds() {
                assert(applied.pending_buffer.first() == edit);
            }
            assert(top.before == edit.before);
            if project.field(key, kind).is_some() {
                lemma_write_same(project, key, kind);
            } else {
                lemma_write_absent(project, key, kind, top.before);
            }
        }
    }
    // undo
    if project.field(key, kind).is_some() {
        if top.before.fits(kind) {
            lemma_write_twice(project, key, kind, template.after, top.before);
        } else {
            assert(applied.folds() && history.pending_buffer.len() > 0);
            assert(history.pending_buffer.first().well_typed());
        }
    } else {
        lemma_write_absent(project, key, kind, template.after);
        lemma_write_absent(project, key, kind, top.before);
    }
    assert(committed.undo_in(edited) == project);
    // redo
    let undone = committed.undone();
    assert(undone.redo_stack.last() == top);
    assert(undone.redone().undo_stack =~= committed.undo_stack);
    assert(undone.redone().redo_stack =~= committed.redo_stack);
}

/// Redo invalidation. After an edit nothing can be redone, whatever could be
/// redone before.
pub proof fn lemma_apply_empties_redo(history: HistoryView, edit: DiffView)
    ensures
        history.applied(edit).redo_stack.len() == 0,
        history.applied(edit).undo_stack == history.undo_stack,
        history.applied(edit).pending_buffer == history.pending_buffer.push(edit),
{
}

/// Squash correctness. A gesture of one or more diffs that all change the
/// same field of the same line is committed as exactly one entry, which goes
/// from the value before the first diff to the value after the last. One undo
/// then writes the value before the first diff, and no value in between.
pub proof fn lemma_squash(history: HistoryView, project: ProjectView)
    requires
        history.pending_buffer.len() >= 1,
        forall|i: int|
            0 <= i < history.pending_buffer.len() ==> (#[trigger] history.pending_buffer[i]).folds_with(
                history.pending_buffer[0],
            ),
    ensures
        ({
            let first = history.pending_buffer.first();
            let last = history.pending_buffer.last();
            let committed = history.committed();
            &&& committed.undo_stack.len() == history.undo_stack.len() + 1
            &&& committed.undo_stack.drop_last() == history.undo_stack
            &&& committed.undo_stack.last() == (DiffView {
                kind: first.kind,
                target: first.target,
                before: first.before,
                after: last.after,
            })
            &&& committed.pending_buffer.len() == 0
            &&& committed.redo_stack == history.redo_stack
            &&& committed.undo_in(project) == project.with_field(
                first.target,
                first.kind,
                first.before,
            )
            &&& project.field(first.target, first.kind).is_some() && first.before.fits(first.kind)
                ==> committed.undo_in(project).field(first.target, first.kind) == Some(first.before)
        }),
{
    let first = history.pending_buffer.first();
    let last = history.pending_buffer.last();
    assert(last.folds_with(first));
    assert(history.folds());
    let committed = history.committed();
    assert(committed.undo_stack.drop_last() =~= history.undo_stack);
    if project.field(first.target, first.kind).is_some() && first.before.fits(first.kind) {
        lemma_read_after_write(project, first.target, first.kind, first.before);
    }
}

/// Heterogeneous flush. A gesture whose first and last diff do not change the
/// same field of the same line is committed diff by diff: the undo stack
/// grows by the whole gesture, in order, and the gesture is over.
pub proof fn lemma_flush(history: HistoryView)
    requires
        history.pending_buffer.len() >= 1,
        !history.pending_buffer.first().folds_with(history.pending_buffer.last()),
    ensures
        ({
            let committed = history.committed();
            &&& committed.undo_stack.len() == history.undo_stack.len()
                + history.pending_buffer.len()
            &&& forall|i: int|
                0 <= i < history.undo_stack.len() ==> committed.undo_stack[i]
                    == history.undo_stack[i]
            &&& forall|i: int|
                0 <= i < history.pending_buffer.len() ==> committed.undo_stack[history.undo_stack.len()
                    + i] == history.pending_buffer[i]
            &&& committed.pending_buffer.len() == 0
            &&& committed.redo_stack == history.redo_stack
        }),
{
}

/// Empty operations. With nothing to undo, an undo changes neither the
/// history nor the project; with nothing to redo, a redo changes neither.
pub proof fn lemma_empty_operations(history: HistoryView, project: ProjectView)
    ensures
        history.undo_stack.len() == 0 ==> history.undone() == history && history.undo_in(project)
            == project,
        history.redo_stack.len() == 0 ==> history.redone() == history && history.redo_in(project)
            == project,
{
}

/// Stack conservation. Undo and redo move one entry between the two stacks
/// and neither make nor lose one; a commit never shrinks a stack. Only an
/// edit, which empties the redo stack, can make the two stacks hold less.
pub proof fn lemma_stack_conservation(history: HistoryView)
    ensures
        history.undone().undo_stack.len() + history.undone().redo_stack.len()
            == history.undo_stack.len() + history.redo_stack.len(),
        history.redone().undo_stack.len() + history.redone().redo_stack.len()
            == history.undo_stack.len() + history.redo_stack.len(),
        history.undo_stack.len() > 0 ==> history.undone().undo_stack + history.undone().redo_stack.reverse()
            == history.undo_stack + history.redo_stack.reverse(),
        history.redo_stack.len() > 0 ==> history.redone().undo_stack + history.redone().redo_stack.reverse()
            == history.undo_stack + history.redo_stack.reverse(),
        history.committed().undo_stack.len() + history.committed().redo_stack.len()
            >= history.undo_stack.len() + history.redo_stack.len(),
        history.undone().pending_buffer == history.pending_buffer,
        history.redone().pending_buffer == history.pending_buffer,
{
    if history.undo_stack.len() > 0 {
        assert(history.undone().undo_stack + history.undone().redo_stack.reverse()
            =~= history.undo_stack + history.redo_stack.reverse());
    }
    if history.redo_stack.len() > 0 {
        assert(history.redone().undo_stack + history.redone().redo_stack.reverse()
            =~= history.undo_stack + history.redo_stack.reverse());
    }
}

/// Undo and redo write to one field of one line, so they keep the playback
/// order and the set of keys: a playback order whose keys all name lines
/// stays such.
pub proof fn lemma_history_keeps_keys(history: HistoryView, project: ProjectView)
    requires
        project.keys_resolve(),
    ensures
        history.undo_in(project).keys_resolve(),
        history.redo_in(project).keys_resolve(),
        history.undo_in(project).audio_keys == project.audio_keys,
        history.redo_in(project).audio_keys == project.audio_keys,
{
    if history.undo_stack.len() > 0 {
        let d = history.undo_stack.last();
        crate::project::lemma_write_keeps_keys(project, d.target, d.kind, d.before);
    }
    if history.redo_stack.len() > 0 {
        let d = history.redo_stack.last();
        crate::project::lemma_write_keeps_keys(project, d.target, d.kind, d.after);
    }
}

/// What a row of the history list is.
pub struct HistoryRowView {
    /// The edit that the row shows; `None` for the row of the latest state.
    pub entry: Option<DiffView>,
    /// Whether the row is the one marked as the present position.
    pub current: bool,
}

/// One row of the history list.
#[derive(Debug, PartialEq)]
pub struct HistoryRow {
    /// The edit that the row shows; `None` for the row of the latest state.
    pub entry: Option<Diff>,
    /// Whether the row is the one marked as the present position.
    pub current: bool,
}

impl View for HistoryRow {
    type V = HistoryRowView;

    open spec fn view(&self) -> HistoryRowView {
        HistoryRowView { entry: opt_view(self.entry), current: self.current }
    }
}

impl HistoryView {
    /// The row at place `i` of the history list.
    pub open spec fn row(self, i: int) -> HistoryRowView {
        HistoryRowView {
            entry: if i <= 0 {
                None
            } else if i <= self.redo_stack.len() {
                Some(self.redo_stack[i - 1])
            } else {
                Some(self.undo_stack[self.undo_stack.len() - (i - self.redo_stack.len())])
            },
            current: i == self.redo_stack.len(),
        }
    }

    /// The history list, most recent first: the row of the latest state, then
    /// the undone edits in the order of the redo stack, then the committed
    /// edits from the last to the first. The row whose place is the number of
    /// undone edits is marked; with nothing undone that is the row of the
    /// latest state.
    pub open spec fn rows(self) -> Seq<HistoryRowView> {
        Seq::new(1 + self.redo_stack.len() + self.undo_stack.len(), |i: int| self.row(i))
    }
}

/// The history list holds the row of the latest state and every undone and
/// every committed edit once, and marks exactly one row.
pub proof fn lemma_rows(history: HistoryView)
    ensures
        history.rows().len() == 1 + history.redo_stack.len() + history.undo_stack.len(),
        history.rows()[0].entry.is_none(),
        forall|i: int|
            0 <= i < history.redo_stack.len() ==> (#[trigger] history.rows()[i + 1]).entry == Some(
                history.redo_stack[i],
            ),
        forall|i: int|
            0 <= i < history.undo_stack.len() ==> (#[trigger] history.rows()[history.rows().len()
                - 1 - i]).entry == Some(history.undo_stack[i]),
        forall|i: int|
            0 <= i < history.rows().len() ==> ((#[trigger] history.rows()[i]).current <==> i
                == history.redo_stack.len()),
{
}

impl History {
    /// The history list for display: see [`HistoryView::rows`]. The edits
    /// that are not yet committed are not part of it.
    pub fn build_view(&self) -> (r: Vec<HistoryRow>)
        ensures
            seq_view(r@) == self@.rows(),
    {
        let redo_len = self.redo_stack.len();
        let undo_len = self.undo_stack.len();
        let mut rows: Vec<HistoryRow> = Vec::new();
        rows.push(HistoryRow { entry: None, current: redo_len == 0 });
        let mut i: usize = 0;
        while i < redo_len
            invariant
                i <= redo_len,
                redo_len == self.redo_stack.len(),
                rows.len() == 1 + i,
                forall|j: int| 0 <= j < rows.len() ==> (#[trigger] rows[j])@ == self@.row(j),
            decreases redo_len - i,
        {
            rows.push(
                HistoryRow { entry: Some(self.redo_stack[i].clone()), current: i + 1 == redo_len },
            );
            i += 1;
        }
        let mut k: usize = 0;
        while k < undo_len
            invariant
                k <= undo_len,
                redo_len == self.redo_stack.len(),
                undo_len == self.undo_stack.len(),
                rows.len() == 1 + redo_len + k,
                forall|j: int| 0 <= j < rows.len() ==> (#[trigger] rows[j])@ == self@.row(j),
            decreases undo_len - k,
        {
            rows.push(
                HistoryRow { entry: Some(self.undo_stack[undo_len - 1 - k].clone()), current: false },
            );
            k += 1;
        }
        assert(seq_view(rows@) =~= self@.rows());
        rows
    }
}

impl Default for History {
    fn default() -> (r: History)
        ensures
            r@ == HistoryView::empty(),
    {
        History::new()
    }
}

/// The words with which the history list names a change of the field.
pub open spec fn change_label_text(kind: Field) -> Seq<char> {
    match kind {
        Field::Text => "テキスト編集"@,
        Field::Pitch => "音高変更"@,
        Field::Speed => "話速変更"@,
        Field::Intonation => "抑揚変更"@,
        Field::Volume => "音量変更"@,
        Field::PrePhonemeLength => "開始無音変更"@,
        Field::PostPhonemeLength => "終了無音変更"@,
        Field::Style => "キャラクター変更"@,
    }
}

/// The words with which the history list names a change of the field.
pub fn change_label(kind: Field) -> (r: &'static str)
    ensures
        r@ == change_label_text(kind),
{
    match kind {
        Field::Text => "テキスト編集",
        Field::Pitch => "音高変更",
        Field::Speed => "話速変更",
        Field::Intonation => "抑揚変更",
        Field::Volume => "音量変更",
        Field::PrePhonemeLength => "開始無音変更",
        Field::PostPhonemeLength => "終了無音変更",
        Field::Style => "キャラクター変更",
    }
}

} // verus!
