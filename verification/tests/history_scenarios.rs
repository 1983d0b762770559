use voice_vox::history::{Commit, Diff, History, HistoryRow};
use voice_vox::project::{AudioItem, Field, Value, VoiceVoxProject};
use voice_vox::scalar::Scalar;

fn num(x: f64) -> Scalar {
    Scalar::from_bits(x.to_bits())
}

fn project_with_line(key: &str) -> VoiceVoxProject {
    let mut project = VoiceVoxProject::new("0.13.3".to_string());
    assert!(project.add_line(key.to_string(), AudioItem::initial()));
    project
}

fn number_of(project: &VoiceVoxProject, key: &str, field: Field) -> f64 {
    match project.field(&key.to_string(), field) {
        Some(Value::Number(n)) => f64::from_bits(n.to_bits()),
        other => panic!("no number: {:?}", other),
    }
}

fn text_of(project: &VoiceVoxProject, key: &str) -> String {
    match project.field(&key.to_string(), Field::Text) {
        Some(Value::Text(t)) => t,
        other => panic!("no text: {:?}", other),
    }
}

fn pitch(key: &str, before: f64, after: f64) -> Diff {
    Diff::Pitch { audio_item_key: key.to_string(), before: num(before), after: num(after) }
}

fn text(key: &str, before: &str, after: &str) -> Diff {
    Diff::Text {
        audio_item_key: key.to_string(),
        before: before.to_string(),
        after: after.to_string(),
    }
}

#[test]
fn slider_drag_is_one_undo_step() {
    let mut project = project_with_line("L1");
    let mut history = History::new();
    assert_eq!(number_of(&project, "L1", Field::Pitch), 0.0);

    history.apply(pitch("L1", 0.0, 0.01), &mut project);
    history.apply(pitch("L1", 0.0, 0.05), &mut project);
    let last = history.apply(pitch("L1", 0.0, 0.10), &mut project);
    assert_eq!(last, pitch("L1", 0.05, 0.10));
    assert_eq!(history.pending_buffer().len(), 3);
    assert_eq!(history.undo_stack().len(), 0);
    assert_eq!(number_of(&project, "L1", Field::Pitch), 0.10);

    assert_eq!(history.commit(), Commit::Folded);
    assert_eq!(history.pending_buffer().len(), 0);
    assert_eq!(history.undo_stack(), &vec![pitch("L1", 0.0, 0.10)]);

    history.undo(&mut project);
    assert_eq!(number_of(&project, "L1", Field::Pitch), 0.0);
    assert_eq!(history.undo_stack().len(), 0);
    assert_eq!(history.redo_stack(), &vec![pitch("L1", 0.0, 0.10)]);

    history.redo(&mut project);
    assert_eq!(number_of(&project, "L1", Field::Pitch), 0.10);
    assert_eq!(history.redo_stack().len(), 0);
    assert_eq!(history.undo_stack(), &vec![pitch("L1", 0.0, 0.10)]);
}

#[test]
fn apply_fills_in_before_and_writes_after() {
    let mut project = project_with_line("a");
    let mut history = History::new();
    let done = history.apply(text("a", "ignored", "hello"), &mut project);
    assert_eq!(done, text("a", "", "hello"));
    assert_eq!(text_of(&project, "a"), "hello");
    assert_eq!(history.pending_buffer(), &vec![text("a", "", "hello")]);
    let done = history.apply(text("a", "", "hello world"), &mut project);
    assert_eq!(done, text("a", "hello", "hello world"));
    assert_eq!(text_of(&project, "a"), "hello world");
}

#[test]
fn apply_to_a_missing_line_is_recorded_as_it_came() {
    let mut project = project_with_line("a");
    let mut history = History::new();
    let done = history.apply(pitch("gone", 7.0, 0.5), &mut project);
    assert_eq!(done, pitch("gone", 7.0, 0.5));
    assert_eq!(history.pending_buffer(), &vec![pitch("gone", 7.0, 0.5)]);
    assert_eq!(project.field(&"gone".to_string(), Field::Pitch), None);
    assert_eq!(number_of(&project, "a", Field::Pitch), 0.0);
    // undo and redo of such an entry leave the project alone
    history.commit();
    history.undo(&mut project);
    assert_eq!(number_of(&project, "a", Field::Pitch), 0.0);
    history.redo(&mut project);
    assert_eq!(number_of(&project, "a", Field::Pitch), 0.0);
    assert_eq!(project.entries().len(), 1);
}

#[test]
fn apply_to_a_line_without_query_changes_nothing() {
    let mut project = VoiceVoxProject::new("0.13.3".to_string());
    let item = AudioItem { text: "t".to_string(), style_id: 3, query: None, preset_key: None };
    assert!(project.add_line("k".to_string(), item));
    let mut history = History::new();
    let done = history.apply(pitch("k", 9.0, 0.5), &mut project);
    assert_eq!(done, pitch("k", 9.0, 0.5));
    assert_eq!(project.field(&"k".to_string(), Field::Pitch), None);
    assert_eq!(project.get(&"k".to_string()).unwrap().query, None);
}

#[test]
fn apply_empties_the_redo_stack() {
    let mut project = project_with_line("a");
    let mut history = History::new();
    history.apply(pitch("a", 0.0, 0.1), &mut project);
    history.commit();
    history.apply(pitch("a", 0.0, 0.2), &mut project);
    history.commit();
    history.undo(&mut project);
    history.undo(&mut project);
    assert_eq!(history.redo_stack().len(), 2);
    history.apply(text("a", "", "x"), &mut project);
    assert_eq!(history.redo_stack().len(), 0);
    assert_eq!(history.undo_stack().len(), 0);
    assert_eq!(history.pending_buffer().len(), 1);
}

#[test]
fn round_trip_restores_both_states() {
    let mut project = project_with_line("a");
    let mut history = History::new();
    history.apply(text("a", "", "first"), &mut project);
    history.commit();
    history.apply(text("a", "", "second"), &mut project);
    history.commit();
    history.undo(&mut project);
    assert_eq!(text_of(&project, "a"), "first");
    history.redo(&mut project);
    assert_eq!(text_of(&project, "a"), "second");
    history.undo(&mut project);
    assert_eq!(text_of(&project, "a"), "first");
    history.undo(&mut project);
    assert_eq!(text_of(&project, "a"), "");
}

#[test]
fn heterogeneous_buffer_is_flushed_in_order() {
    let mut project = project_with_line("a");
    let mut history = History::new();
    history.apply(text("a", "", "hi"), &mut project);
    history.apply(pitch("a", 0.0, 0.05), &mut project);
    assert_eq!(history.commit(), Commit::Flushed);
    assert_eq!(history.pending_buffer().len(), 0);
    assert_eq!(history.undo_stack(), &vec![text("a", "", "hi"), pitch("a", 0.0, 0.05)]);
}

#[test]
fn same_kind_on_two_lines_is_flushed() {
    let mut project = project_with_line("a");
    assert!(project.add_line("b".to_string(), AudioItem::initial()));
    let mut history = History::new();
    history.apply(pitch("a", 0.0, 0.05), &mut project);
    history.apply(pitch("b", 0.0, 0.07), &mut project);
    assert_eq!(history.commit(), Commit::Flushed);
    assert_eq!(history.undo_stack().len(), 2);
}

#[test]
fn only_first_and_last_decide_the_fold() {
    let mut project = project_with_line("a");
    let mut history = History::new();
    history.apply(pitch("a", 0.0, 0.05), &mut project);
    history.apply(text("a", "", "between"), &mut project);
    history.apply(pitch("a", 0.0, 0.07), &mut project);
    assert_eq!(history.commit(), Commit::Folded);
    assert_eq!(history.undo_stack(), &vec![pitch("a", 0.0, 0.07)]);
}

#[test]
fn commit_of_nothing_changes_nothing() {
    let mut history = History::new();
    assert_eq!(history.commit(), Commit::Nothing);
    assert_eq!(history.undo_stack().len(), 0);
    assert_eq!(history.redo_stack().len(), 0);
    assert_eq!(history.pending_buffer().len(), 0);
}

#[test]
fn single_diff_commit_is_one_entry() {
    let mut project = project_with_line("a");
    let mut history = History::new();
    history.apply(pitch("a", 0.0, 0.03), &mut project);
    assert_eq!(history.commit(), Commit::Folded);
    assert_eq!(history.undo_stack(), &vec![pitch("a", 0.0, 0.03)]);
}

#[test]
fn undo_and_redo_on_empty_stacks_change_nothing() {
    let mut project = project_with_line("a");
    let mut history = History::new();
    history.undo(&mut project);
    history.redo(&mut project);
    assert_eq!(history.undo_stack().len(), 0);
    assert_eq!(history.redo_stack().len(), 0);
    assert_eq!(text_of(&project, "a"), "");
    assert_eq!(number_of(&project, "a", Field::Pitch), 0.0);
    assert_eq!(project.audio_keys(), &vec!["a".to_string()]);
}

#[test]
fn undo_and_redo_keep_the_number_of_entries() {
    let mut project = project_with_line("a");
    let mut history = History::new();
    for (i, v) in [0.1, 0.2, 0.3].iter().enumerate() {
        history.apply(pitch("a", 0.0, *v), &mut project);
        history.commit();
        assert_eq!(history.undo_stack().len() + history.redo_stack().len(), i + 1);
    }
    for _ in 0..5 {
        history.undo(&mut project);
        assert_eq!(history.undo_stack().len() + history.redo_stack().len(), 3);
    }
    for _ in 0..5 {
        history.redo(&mut project);
        assert_eq!(history.undo_stack().len() + history.redo_stack().len(), 3);
    }
    assert_eq!(number_of(&project, "a", Field::Pitch), 0.3);
}

#[test]
fn every_kind_reads_and_writes_its_own_field() {
    let mut project = project_with_line("a");
    let mut history = History::new();
    let k = || "a".to_string();
    history.apply(Diff::Speed { audio_item_key: k(), before: num(0.0), after: num(1.5) }, &mut project);
    history.commit();
    history.apply(
        Diff::Intonation { audio_item_key: k(), before: num(0.0), after: num(1.25) },
        &mut project,
    );
    history.commit();
    history.apply(Diff::Volume { audio_item_key: k(), before: num(0.0), after: num(0.5) }, &mut project);
    history.commit();
    history.apply(
        Diff::PrePhonemeLength { audio_item_key: k(), before: num(0.0), after: num(0.3) },
        &mut project,
    );
    history.commit();
    history.apply(
        Diff::PostPhonemeLength { audio_item_key: k(), before: num(0.0), after: num(0.4) },
        &mut project,
    );
    history.commit();
    history.apply(Diff::CharacterChange { audio_item_key: k(), before: 0, after: 8 }, &mut project);
    history.commit();
    assert_eq!(number_of(&project, "a", Field::Speed), 1.5);
    assert_eq!(number_of(&project, "a", Field::Intonation), 1.25);
    assert_eq!(number_of(&project, "a", Field::Volume), 0.5);
    assert_eq!(number_of(&project, "a", Field::PrePhonemeLength), 0.3);
    assert_eq!(number_of(&project, "a", Field::PostPhonemeLength), 0.4);
    assert_eq!(number_of(&project, "a", Field::Pitch), 0.0);
    assert_eq!(project.get(&k()).unwrap().style_id, 8);
    assert_eq!(
        history.undo_stack(),
        &vec![
            Diff::Speed { audio_item_key: k(), before: num(1.0), after: num(1.5) },
            Diff::Intonation { audio_item_key: k(), before: num(1.0), after: num(1.25) },
            Diff::Volume { audio_item_key: k(), before: num(1.0), after: num(0.5) },
            Diff::PrePhonemeLength { audio_item_key: k(), before: num(0.1), after: num(0.3) },
            Diff::PostPhonemeLength { audio_item_key: k(), before: num(0.1), after: num(0.4) },
            Diff::CharacterChange { audio_item_key: k(), before: 0, after: 8 },
        ]
    );
    for _ in 0..6 {
        history.undo(&mut project);
    }
    assert_eq!(project.get(&k()).unwrap(), &AudioItem::initial());
}

#[test]
fn history_list_is_most_recent_first() {
    let mut project = project_with_line("a");
    let mut history = History::new();
    assert_eq!(history.build_view(), vec![HistoryRow { entry: None, current: true }]);
    for v in [0.1, 0.2, 0.3] {
        history.apply(pitch("a", 0.0, v), &mut project);
        history.commit();
    }
    assert_eq!(
        history.build_view(),
        vec![
            HistoryRow { entry: None, current: true },
            HistoryRow { entry: Some(pitch("a", 0.2, 0.3)), current: false },
            HistoryRow { entry: Some(pitch("a", 0.1, 0.2)), current: false },
            HistoryRow { entry: Some(pitch("a", 0.0, 0.1)), current: false },
        ]
    );
    history.undo(&mut project);
    history.undo(&mut project);
    assert_eq!(
        history.build_view(),
        vec![
            HistoryRow { entry: None, current: false },
            HistoryRow { entry: Some(pitch("a", 0.2, 0.3)), current: false },
            HistoryRow { entry: Some(pitch("a", 0.1, 0.2)), current: true },
            HistoryRow { entry: Some(pitch("a", 0.0, 0.1)), current: false },
        ]
    );
}

#[test]
fn diff_accessors_and_constructor() {
    let d = pitch("a", 0.0, 0.5);
    assert_eq!(d.kind(), Field::Pitch);
    assert_eq!(d.audio_item_key(), "a");
    assert_eq!(d.before(), Value::Number(num(0.0)));
    assert_eq!(d.after(), Value::Number(num(0.5)));
    assert_eq!(
        Diff::new(Field::Pitch, "a".to_string(), Value::Number(num(0.0)), Value::Number(num(0.5))),
        Some(pitch("a", 0.0, 0.5))
    );
    assert_eq!(
        Diff::new(Field::Text, "a".to_string(), Value::Number(num(0.0)), Value::Number(num(0.5))),
        None
    );
    assert_eq!(
        Diff::new(Field::Style, "a".to_string(), Value::Style(1), Value::Style(2)),
        Some(Diff::CharacterChange { audio_item_key: "a".to_string(), before: 1, after: 2 })
    );
    assert_eq!(
        Diff::new(Field::Pitch, "a".to_string(), Value::Style(1), Value::Number(num(0.5))),
        None
    );
    assert_eq!(d.clone().with_before(Value::Number(num(0.25))), pitch("a", 0.25, 0.5));
    assert_eq!(d.clone().with_before(Value::Style(1)), pitch("a", 0.0, 0.5));
    assert_eq!(d.clone().with_after(Value::Number(num(0.75))), pitch("a", 0.0, 0.75));
    assert!(d.folds_with(&pitch("a", 0.3, 0.4)));
    assert!(!d.folds_with(&pitch("b", 0.3, 0.4)));
    assert!(!d.folds_with(&text("a", "", "")));
    assert_eq!(d.squash(&pitch("a", 0.3, 0.4)), pitch("a", 0.0, 0.4));
    assert_eq!(d.squash(&text("a", "", "t")), pitch("a", 0.0, 0.5));
}
