//! The project document: text lines in playback order, each with its voice
//! and its synthesis parameters, addressed by key.

use vstd::prelude::*;
use crate::api_schema::{AudioQuery, AudioQueryInProject, AudioQueryInProjectView, AudioQueryView};
use crate::scalar::Scalar;
use crate::views::{opt_view, seq_view};

verus! {

/// The fields of a line that an edit can change.
#[derive(Clone, Copy, Debug, PartialEq, Eq, Hash, Structural)]
pub enum Field {
    Text,
    Pitch,
    Speed,
    Intonation,
    Volume,
    PrePhonemeLength,
    PostPhonemeLength,
    Style,
}

impl Field {
    /// Whether the field is one of the six real-valued synthesis parameters,
    /// which a line has only while it has an audio query.
    pub open spec fn is_parameter(self) -> bool {
        self != Field::Text && self != Field::Style
    }
}

/// What a field's value is.
pub enum ValueView {
    Text(Seq<char>),
    Number(Scalar),
    Style(i32),
}

impl ValueView {
    /// Whether a value of this shape is what the field holds: text for the
    /// text, a voice style for the style, a number for each parameter.
    pub open spec fn fits(self, field: Field) -> bool {
        match self {
            ValueView::Text(_) => field == Field::Text,
            ValueView::Style(_) => field == Field::Style,
            ValueView::Number(_) => field.is_parameter(),
        }
    }
}

/// The value of one field of one line.
#[derive(Debug, PartialEq)]
pub enum Value {
    Text(String),
    Number(Scalar),
    Style(i32),
}

impl View for Value {
    type V = ValueView;

    open spec fn view(&self) -> ValueView {
        match self {
            Value::Text(t) => ValueView::Text(t@),
            Value::Number(n) => ValueView::Number(*n),
            Value::Style(s) => ValueView::Style(*s),
        }
    }
}

impl Clone for Value {
    fn clone(&self) -> (r: Self)
        ensures
            r == *self,
    {
        match self {
            Value::Text(t) => Value::Text(t.clone()),
            Value::Number(n) => Value::Number(*n),
            Value::Style(s) => Value::Style(*s),
        }
    }
}

/// What a line of a project is.
pub struct AudioItemView {
    pub text: Seq<char>,
    pub style_id: i32,
    pub query: Option<AudioQueryInProjectView>,
    pub preset_key: Option<Seq<char>>,
}

impl AudioQueryInProjectView {
    /// The parameter of the query that `field` names. `field` is a parameter.
    pub open spec fn parameter(self, field: Field) -> Scalar
        recommends
            field.is_parameter(),
    {
        match field {
            Field::Pitch => self.pitch_scale,
            Field::Speed => self.speed_scale,
            Field::Intonation => self.intonation_scale,
            Field::Volume => self.volume_scale,
            Field::PrePhonemeLength => self.pre_phoneme_length,
            _ => self.post_phoneme_length,
        }
    }

    /// The query with the parameter that `field` names set to `value`, and
    /// nothing else changed. `field` is a parameter.
    pub open spec fn with_parameter(self, field: Field, value: Scalar) -> AudioQueryInProjectView
        recommends
            field.is_parameter(),
    {
        match field {
            Field::Pitch => AudioQueryInProjectView { pitch_scale: value, ..self },
            Field::Speed => AudioQueryInProjectView { speed_scale: value, ..self },
            Field::Intonation => AudioQueryInProjectView { intonation_scale: value, ..self },
            Field::Volume => AudioQueryInProjectView { volume_scale: value, ..self },
            Field::PrePhonemeLength => AudioQueryInProjectView { pre_phoneme_length: value, ..self },
            _ => AudioQueryInProjectView { post_phoneme_length: value, ..self },
        }
    }
}

impl AudioItemView {
    /// The value that the line holds in `field`, or `None` where the field is
    /// a parameter and the line has no audio query.
    pub open spec fn field(self, field: Field) -> Option<ValueView> {
        match field {
            Field::Text => Some(ValueView::Text(self.text)),
            Field::Style => Some(ValueView::Style(self.style_id)),
            _ => match self.query {
                Some(q) => Some(ValueView::Number(q.parameter(field))),
                None => None,
            },
        }
    }

    /// The line with `field` set to `value` and nothing else changed. The line
    /// is unchanged where it does not hold the field, or where the value is
    /// not of the field's shape.
    pub open spec fn with_field(self, field: Field, value: ValueView) -> AudioItemView {
        match (field, value) {
            (Field::Text, ValueView::Text(t)) => AudioItemView { text: t, ..self },
            (Field::Style, ValueView::Style(s)) => AudioItemView { style_id: s, ..self },
            (_, ValueView::Number(n)) => match self.query {
                Some(q) if field.is_parameter() => AudioItemView {
                    query: Some(q.with_parameter(field, n)),
                    ..self
                },
                _ => self,
            },
            _ => self,
        }
    }

    /// The line that a new project starts with: no text, the first voice
    /// style, the engine's initial query, no preset.
    pub open spec fn initial() -> AudioItemView {
        AudioItemView {
            text: Seq::empty(),
            style_id: 0,
            query: Some(AudioQueryView::initial().in_project()),
            preset_key: None,
        }
    }
}

/// One line of a project: its text, its voice style, and the synthesis
/// parameters once the engine has supplied them.
#[derive(Debug, Clone, PartialEq)]
pub struct AudioItem {
    pub text: String,
    pub style_id: i32,
    pub query: Option<AudioQueryInProject>,
    pub preset_key: Option<String>,
}

impl View for AudioItem {
    type V = AudioItemView;

    open spec fn view(&self) -> AudioItemView {
        AudioItemView {
            text: self.text@,
            style_id: self.style_id,
            query: opt_view(self.query),
            preset_key: opt_view(self.preset_key),
        }
    }
}

impl AudioQueryInProject {
    /// The parameter that `field` names. `field` is a parameter.
    pub(crate) fn parameter(&self, field: Field) -> (r: Scalar)
        requires
            field.is_parameter(),
        ensures
            r == self@.parameter(field),
    {
        match field {
            Field::Pitch => self.pitch_scale,
            Field::Speed => self.speed_scale,
            Field::Intonation => self.intonation_scale,
            Field::Volume => self.volume_scale,
            Field::PrePhonemeLength => self.pre_phoneme_length,
            _ => self.post_phoneme_length,
        }
    }

    /// Sets the parameter that `field` names. `field` is a parameter.
    pub(crate) fn set_parameter(&mut self, field: Field, value: Scalar)
        requires
            field.is_parameter(),
        ensures
            final(self)@ == old(self)@.with_parameter(field, value),
    {
        match field {
            Field::Pitch => {
                self.pitch_scale = value;
            },
            Field::Speed => {
                self.speed_scale = value;
            },
            Field::Intonation => {
                self.intonation_scale = value;
            },
            Field::Volume => {
                self.volume_scale = value;
            },
            Field::PrePhonemeLength => {
                self.pre_phoneme_length = value;
            },
            _ => {
                self.post_phoneme_length = value;
            },
        }
    }
}

impl AudioItem {
    /// The line that a new project starts with.
    pub fn initial() -> (r: AudioItem)
        ensures
            r@ == AudioItemView::initial(),
    {
        AudioItem {
            text: String::new(),
            style_id: 0,
            query: Some(AudioQueryInProject::from(AudioQuery::default())),
            preset_key: None,
        }
    }

    /// The value held in `field`, or `None` where the field is a parameter
    /// and the line has no audio query.
    pub fn field(&self, field: Field) -> (r: Option<Value>)
        ensures
            opt_view(r) == self@.field(field),
    {
        match field {
            Field::Text => Some(Value::Text(self.text.clone())),
            Field::Style => Some(Value::Style(self.style_id)),
            _ => match &self.query {
                Some(q) => Some(Value::Number(q.parameter(field))),
                None => None,
            },
        }
    }

    /// Sets `field` to `value`. Nothing changes where the line does not hold
    /// the field, or where the value is not of the field's shape.
    pub fn set_field(&mut self, field: Field, value: Value)
        ensures
            final(self)@ == old(self)@.with_field(field, value@),
    {
        match value {
            Value::Text(t) => {
                if field == Field::Text {
                    self.text = t;
                }
            },
            Value::Style(s) => {
                if field == Field::Style {
                    self.style_id = s;
                }
            },
            Value::Number(n) => {
                if field != Field::Text && field != Field::Style {
                    match &mut self.query {
                        Some(q) => {
                            q.set_parameter(field, n);
                        },
                        None => {},
                    }
                }
            },
        }
    }
}

/// What a project is: the version of the editor that wrote it, the keys of
/// its lines in playback order, and the line that each key names.
pub struct ProjectView {
    pub app_version: Seq<char>,
    pub audio_keys: Seq<Seq<char>>,
    pub audio_items: Map<Seq<char>, AudioItemView>,
}

impl ProjectView {
    /// Whether every key of the playback order names a line.
    pub open spec fn keys_resolve(self) -> bool {
        forall|i: int| 0 <= i < self.audio_keys.len() ==> self.audio_items.contains_key(
            #[trigger] self.audio_keys[i],
        )
    }

    /// The project with an empty line added at the end under `key`: the key
    /// is last in the playback order and names the line that a new project
    /// starts with. The project is unchanged where a line has the key
    /// already.
    pub open spec fn with_cell(self, key: Seq<char>) -> ProjectView {
        if self.audio_items.contains_key(key) {
            self
        } else {
            ProjectView {
                audio_keys: self.audio_keys.push(key),
                audio_items: self.audio_items.insert(key, AudioItemView::initial()),
                ..self
            }
        }
    }

    /// The value that the line named `key` holds in `field`: `None` where no
    /// line has that key, or where the line does not hold the field.
    pub open spec fn field(self, key: Seq<char>, field: Field) -> Option<ValueView> {
        if self.audio_items.contains_key(key) {
            self.audio_items[key].field(field)
        } else {
            None
        }
    }

    /// The project with `field` of the line named `key` set to `value`. The
    /// project is unchanged where no line has that key, where the line does
    /// not hold the field, or where the value is not of the field's shape.
    /// The playback order is never touched.
    pub open spec fn with_field(self, key: Seq<char>, field: Field, value: ValueView) -> ProjectView {
        if self.audio_items.contains_key(key) {
            ProjectView {
                audio_items: self.audio_items.insert(
                    key,
                    self.audio_items[key].with_field(field, value),
                ),
                ..self
            }
        } else {
            self
        }
    }
}

/// A line of a project together with its key.
pub type Entry = (String, AudioItem);

/// Whether the entry at place `i` is the first with key `key`.
pub open spec fn first_at(entries: Seq<Entry>, key: Seq<char>, i: int) -> bool {
    &&& 0 <= i < entries.len()
    &&& entries[i].0@ == key
    &&& forall|j: int| 0 <= j < i ==> entries[j].0@ != key
}

/// Whether some entry has key `key`.
pub open spec fn has_key(entries: Seq<Entry>, key: Seq<char>) -> bool {
    exists|i: int| first_at(entries, key, i)
}

/// The place of the first entry with key `key`.
pub open spec fn index_of(entries: Seq<Entry>, key: Seq<char>) -> int {
    choose|i: int| first_at(entries, key, i)
}

/// The lines of a project as a map from key to line. Where two entries have
/// one key, the first is the line and the other is never seen.
pub open spec fn lines_of(entries: Seq<Entry>) -> Map<Seq<char>, AudioItemView> {
    Map::new(
        |k: Seq<char>| has_key(entries, k),
        |k: Seq<char>| entries[index_of(entries, k)].1@,
    )
}

/// A key has one first place.
pub proof fn lemma_first_at(entries: Seq<Entry>, key: Seq<char>, i: int)
    requires
        first_at(entries, key, i),
    ensures
        has_key(entries, key),
        index_of(entries, key) == i,
{
    let j = index_of(entries, key);
    assert(first_at(entries, key, j));
    if j < i {
        assert(entries[j].0@ != key);
    } else if i < j {
        assert(entries[i].0@ != key);
    }
}

/// A key that stands anywhere among the entries has a first place.
pub proof fn lemma_has_key(entries: Seq<Entry>, key: Seq<char>, i: int)
    requires
        0 <= i < entries.len(),
        entries[i].0@ == key,
    ensures
        has_key(entries, key),
    decreases i,
{
    if exists|j: int| 0 <= j < i && entries[j].0@ == key {
        let j = choose|j: int| 0 <= j < i && entries[j].0@ == key;
        lemma_has_key(entries, key, j);
    } else {
        assert(first_at(entries, key, i));
    }
}

/// Replacing the line of an entry, and keeping its key, replaces the line
/// under that key where the entry is the first with it.
pub proof fn lemma_lines_update(entries: Seq<Entry>, i: int, entry: Entry)
    requires
        first_at(entries, entry.0@, i),
    ensures
        lines_of(entries.update(i, entry)) == lines_of(entries).insert(entry.0@, entry.1@),
{
    let after = entries.update(i, entry);
    assert forall|k: Seq<char>, j: int| first_at(entries, k, j) <==> first_at(after, k, j) by {
        if first_at(entries, k, j) {
            assert(forall|l: int| 0 <= l < j ==> after[l].0@ == entries[l].0@);
        }
        if first_at(after, k, j) {
            assert(forall|l: int| 0 <= l < j ==> after[l].0@ == entries[l].0@);
        }
    }
    assert forall|k: Seq<char>| has_key(entries, k) <==> has_key(after, k) by {
        if has_key(entries, k) {
            assert(first_at(after, k, index_of(entries, k)));
        }
        if has_key(after, k) {
            assert(first_at(entries, k, index_of(after, k)));
        }
    }
    lemma_first_at(entries, entry.0@, i);
    assert forall|k: Seq<char>| has_key(after, k) implies #[trigger] lines_of(after)[k]
        == lines_of(entries).insert(entry.0@, entry.1@)[k] by {
        let j = index_of(after, k);
        assert(first_at(entries, k, j));
        lemma_first_at(entries, k, j);
    }
    assert(lines_of(after) =~= lines_of(entries).insert(entry.0@, entry.1@));
}

/// An entry appended under a key that no entry has joins the map.
pub proof fn lemma_lines_push(entries: Seq<Entry>, entry: Entry)
    requires
        !has_key(entries, entry.0@),
    ensures
        lines_of(entries.push(entry)) == lines_of(entries).insert(entry.0@, entry.1@),
{
    let after = entries.push(entry);
    let key = entry.0@;
    assert forall|j: int| 0 <= j < entries.len() implies entries[j].0@ != key by {
        if entries[j].0@ == key {
            lemma_has_key(entries, key, j);
        }
    }
    assert(first_at(after, key, entries.len() as int));
    lemma_first_at(after, key, entries.len() as int);
    assert forall|k: Seq<char>, j: int| first_at(entries, k, j) implies first_at(after, k, j) by {
        assert(forall|l: int| 0 <= l <= j ==> after[l].0@ == entries[l].0@);
    }
    assert forall|k: Seq<char>| has_key(after, k) <==> (has_key(entries, k) || k == key) by {
        if has_key(after, k) {
            let j = index_of(after, k);
            assert(first_at(after, k, j));
            if j < entries.len() {
                assert(forall|l: int| 0 <= l <= j ==> after[l].0@ == entries[l].0@);
                assert(first_at(entries, k, j));
            }
        }
        if has_key(entries, k) {
            assert(first_at(after, k, index_of(entries, k)));
        }
    }
    assert forall|k: Seq<char>| has_key(after, k) implies #[trigger] lines_of(after)[k]
        == lines_of(entries).insert(key, entry.1@)[k] by {
        if k != key {
            let j = index_of(entries, k);
            assert(first_at(entries, k, j));
            assert(first_at(after, k, j));
            lemma_first_at(after, k, j);
        }
    }
    assert(lines_of(after) =~= lines_of(entries).insert(key, entry.1@));
}

/// Draws a key for a new line: calls `uuid::Uuid::new_v4` and writes the
/// identifier with `to_string`.
///
/// Trusted: the call returns. The key is random, and nothing is claimed of
/// it; in particular not that it is new. The call panics where the system
/// has no random bytes to give.
#[verifier::external_body]
pub(crate) fn fresh_key() -> (r: String) {
    uuid::Uuid::new_v4().to_string()
}

/// A project: text lines in playback order, found by key.
///
/// The lines are kept as a list of entries, each a key with its line. A key
/// names the first entry that has it.
#[derive(Debug, Clone, PartialEq)]
pub struct VoiceVoxProject {
    app_version: String,
    audio_keys: Vec<String>,
    entries: Vec<Entry>,
}

impl View for VoiceVoxProject {
    type V = ProjectView;

    closed spec fn view(&self) -> ProjectView {
        ProjectView {
            app_version: self.app_version@,
            audio_keys: seq_view(self.audio_keys@),
            audio_items: lines_of(self.entries@),
        }
    }
}

impl VoiceVoxProject {
    /// A project without lines, written by the given version of the editor.
    pub fn new(app_version: String) -> (r: VoiceVoxProject)
        ensures
            r@.app_version == app_version@,
            r@.audio_keys == Seq::<Seq<char>>::empty(),
            r@.audio_items == Map::<Seq<char>, AudioItemView>::empty(),
    {
        let r = VoiceVoxProject { app_version, audio_keys: Vec::new(), entries: Vec::new() };
        assert(r@.audio_keys =~= Seq::<Seq<char>>::empty());
        assert(r@.audio_items =~= Map::<Seq<char>, AudioItemView>::empty());
        r
    }

    /// The project made of the given parts: the version of the editor, the
    /// keys in playback order, and the lines with their keys. Where two lines
    /// come with one key, the first is the line of that key.
    pub fn from_parts(app_version: String, audio_keys: Vec<String>, entries: Vec<Entry>) -> (r:
        VoiceVoxProject)
        ensures
            r@ == (ProjectView {
                app_version: app_version@,
                audio_keys: seq_view(audio_keys@),
                audio_items: lines_of(entries@),
            }),
    {
        VoiceVoxProject { app_version, audio_keys, entries }
    }

    /// The parts of the project: the version of the editor, the keys in
    /// playback order, and the lines with their keys.
    pub fn into_parts(self) -> (r: (String, Vec<String>, Vec<Entry>))
        ensures
            self@ == (ProjectView {
                app_version: r.0@,
                audio_keys: seq_view(r.1@),
                audio_items: lines_of(r.2@),
            }),
    {
        (self.app_version, self.audio_keys, self.entries)
    }

    /// The lines with their keys, in the order in which they were added.
    pub fn entries(&self) -> (r: &Vec<Entry>)
        ensures
            lines_of(r@) == self@.audio_items,
    {
        &self.entries
    }

    /// The version of the editor that wrote the project.
    pub fn app_version(&self) -> (r: &String)
        ensures
            r@ == self@.app_version,
    {
        &self.app_version
    }

    /// The keys of the lines, in playback order.
    pub fn audio_keys(&self) -> (r: &Vec<String>)
        ensures
            seq_view(r@) == self@.audio_keys,
    {
        &self.audio_keys
    }

    /// The place of the first entry with the given key, if there is one.
    fn find(&self, key: &String) -> (r: Option<usize>)
        ensures
            match r {
                Some(i) => first_at(self.entries@, key@, i as int),
                None => !has_key(self.entries@, key@),
            },
    {
        let mut i: usize = 0;
        while i < self.entries.len()
            invariant
                i <= self.entries.len(),
                forall|j: int| 0 <= j < i ==> self.entries[j].0@ != key@,
            decreases self.entries.len() - i,
        {
            if self.entries[i].0 == *key {
                return Some(i);
            }
            i += 1;
        }
        None
    }

    /// Whether a line has the given key.
    pub fn contains_key(&self, key: &String) -> (r: bool)
        ensures
            r == self@.audio_items.contains_key(key@),
    {
        match self.find(key) {
            Some(i) => {
                proof {
                    lemma_first_at(self.entries@, key@, i as int);
                }
                true
            },
            None => false,
        }
    }

    /// The line with the given key, if there is one.
    pub fn get(&self, key: &String) -> (r: Option<&AudioItem>)
        ensures
            match r {
                Some(item) => self@.audio_items.contains_key(key@) && item@
                    == self@.audio_items[key@],
                None => !self@.audio_items.contains_key(key@),
            },
    {
        match self.find(key) {
            Some(i) => {
                proof {
                    lemma_first_at(self.entries@, key@, i as int);
                }
                Some(&self.entries[i].1)
            },
            None => None,
        }
    }

    /// The value that the line named `key` holds in `field`: `None` where no
    /// line has that key, or where the line does not hold the field.
    pub fn field(&self, key: &String, field: Field) -> (r: Option<Value>)
        ensures
            opt_view(r) == self@.field(key@, field),
    {
        match self.get(key) {
            Some(item) => item.field(field),
            None => None,
        }
    }

    /// Sets `field` of the line named `key` to `value`. Nothing changes where
    /// no line has that key, where the line does not hold the field, or where
    /// the value is not of the field's shape.
    pub fn set_field(&mut self, key: &String, field: Field, value: Value)
        ensures
            final(self)@ == old(self)@.with_field(key@, field, value@),
    {
        match self.find(key) {
            Some(i) => {
                let ghost before = self.entries@;
                self.entries[i].1.set_field(field, value);
                proof {
                    let after = self.entries@;
                    lemma_first_at(before, key@, i as int);
                    assert(after[i as int].0 == before[i as int].0);
                    assert(after == before.update(i as int, after[i as int]));
                    lemma_lines_update(before, i as int, after[i as int]);
                }
            },
            None => {},
        }
    }

    /// Puts `item` under `key`, in place of the line that had the key if
    /// there was one, which is handed back. The playback order is unchanged.
    pub fn insert(&mut self, key: String, item: AudioItem) -> (r: Option<AudioItem>)
        ensures
            final(self)@ == (ProjectView {
                audio_items: old(self)@.audio_items.insert(key@, item@),
                ..old(self)@
            }),
            opt_view(r) == (if old(self)@.audio_items.contains_key(key@) {
                Some(old(self)@.audio_items[key@])
            } else {
                None
            }),
    {
        let ghost before = self.entries@;
        match self.find(&key) {
            Some(i) => {
                proof {
                    lemma_first_at(before, key@, i as int);
                }
                self.entries.push((key, item));
                let previous = self.entries.swap_remove(i);
                proof {
                    assert(self.entries@ =~= before.update(i as int, (key, item)));
                    lemma_lines_update(before, i as int, (key, item));
                }
                Some(previous.1)
            },
            None => {
                self.entries.push((key, item));
                proof {
                    lemma_lines_push(before, (key, item));
                }
                None
            },
        }
    }

    /// Appends `key` to the playback order.
    pub fn push_key(&mut self, key: String)
        ensures
            final(self)@ == (ProjectView {
                audio_keys: old(self)@.audio_keys.push(key@),
                ..old(self)@
            }),
    {
        proof {
            crate::views::lemma_seq_view_push(self.audio_keys@, key);
        }
        self.audio_keys.push(key);
    }

    /// Adds a line at the end of the project: `item` under `key`, last in the
    /// playback order. Where a line has the key already, nothing changes and
    /// the answer is `false`.
    pub fn add_line(&mut self, key: String, item: AudioItem) -> (r: bool)
        ensures
            r == !old(self)@.audio_items.contains_key(key@),
            r ==> final(self)@ == (ProjectView {
                audio_keys: old(self)@.audio_keys.push(key@),
                audio_items: old(self)@.audio_items.insert(key@, item@),
                ..old(self)@
            }),
            !r ==> final(self)@ == old(self)@,
            old(self)@.keys_resolve() ==> final(self)@.keys_resolve(),
    {
        if self.contains_key(&key) {
            false
        } else {
            let ghost before = self@;
            let order_key = key.clone();
            self.insert(key, item);
            self.push_key(order_key);
            proof {
                let after = self@;
                if before.keys_resolve() {
                    assert forall|i: int|
                        0 <= i < after.audio_keys.len() implies after.audio_items.contains_key(
                        #[trigger] after.audio_keys[i],
                    ) by {
                        if i < before.audio_keys.len() {
                            assert(after.audio_keys[i] == before.audio_keys[i]);
                        }
                    }
                }
            }
            true
        }
    }

    /// Adds an empty line at the end of the project, under a key drawn at
    /// random. The answer says whether the key drawn was free: it is `false`,
    /// and nothing changes, in the event that a line has the key already. In
    /// a project without lines every key is free, and the line is added.
    pub fn add_audio_cell(&mut self) -> (r: bool)
        ensures
            exists|key: Seq<char>|
                {
                    &&& #[trigger] old(self)@.with_cell(key) == final(self)@
                    &&& r == !old(self)@.audio_items.contains_key(key)
                },
            !r ==> final(self)@ == old(self)@,
            r ==> exists|key: Seq<char>|
                {
                    &&& !old(self)@.audio_items.contains_key(key)
                    &&& #[trigger] old(self)@.audio_keys.push(key) == final(self)@.audio_keys
                    &&& final(self)@.audio_items == old(self)@.audio_items.insert(
                        key,
                        AudioItemView::initial(),
                    )
                    &&& final(self)@.app_version == old(self)@.app_version
                },
            old(self)@.keys_resolve() ==> final(self)@.keys_resolve(),
    {
        let key = fresh_key();
        let ghost k = key@;
        let r = self.add_line(key, AudioItem::initial());
        proof {
            if r {
                assert(old(self)@.audio_keys.push(k) == self@.audio_keys);
            }
            assert(old(self)@.with_cell(k) == self@);
        }
        r
    }
}

/// Writing a field its own value changes nothing.
pub proof fn lemma_write_same(project: ProjectView, key: Seq<char>, field: Field)
    requires
        project.field(key, field).is_some(),
    ensures
        project.with_field(key, field, project.field(key, field).unwrap()) == project,
{
    let value = project.field(key, field).unwrap();
    assert(project.audio_items.insert(key, project.audio_items[key].with_field(field, value))
        =~= project.audio_items);
}

/// Writing to a field that the project does not have changes nothing.
pub proof fn lemma_write_absent(project: ProjectView, key: Seq<char>, field: Field, value: ValueView)
    requires
        project.field(key, field).is_none(),
    ensures
        project.with_field(key, field, value) == project,
{
    if project.audio_items.contains_key(key) {
        assert(project.audio_items.insert(key, project.audio_items[key].with_field(field, value))
            =~= project.audio_items);
    }
}

/// Of two writes to one field, the second decides, where its value is of the
/// field's shape.
pub proof fn lemma_write_twice(
    project: ProjectView,
    key: Seq<char>,
    field: Field,
    first: ValueView,
    second: ValueView,
)
    requires
        second.fits(field),
    ensures
        project.with_field(key, field, first).with_field(key, field, second) == project.with_field(
            key,
            field,
            second,
        ),
{
    if project.audio_items.contains_key(key) {
        let item = project.audio_items[key];
        assert(item.with_field(field, first).with_field(field, second) == item.with_field(
            field,
            second,
        ));
        assert(project.audio_items.insert(key, item.with_field(field, first)).insert(
            key,
            item.with_field(field, first).with_field(field, second),
        ) =~= project.audio_items.insert(key, item.with_field(field, second)));
    }
}

/// A write leaves the playback order, the set of keys and the version alone,
/// so a playback order whose keys all name lines stays such.
pub proof fn lemma_write_keeps_keys(project: ProjectView, key: Seq<char>, field: Field, value: ValueView)
    ensures
        project.with_field(key, field, value).audio_keys == project.audio_keys,
        project.with_field(key, field, value).app_version == project.app_version,
        project.with_field(key, field, value).audio_items.dom() == project.audio_items.dom(),
        project.keys_resolve() ==> project.with_field(key, field, value).keys_resolve(),
{
    let after = project.with_field(key, field, value);
    assert(after.audio_items.dom() =~= project.audio_items.dom());
    if project.keys_resolve() {
        assert forall|i: int| 0 <= i < after.audio_keys.len() implies after.audio_items.contains_key(
            #[trigger] after.audio_keys[i],
        ) by {
            assert(project.audio_items.contains_key(project.audio_keys[i]));
        }
    }
}

/// What is read from a field after a write: the value written, where the
/// project has the field and the value is of the field's shape.
pub proof fn lemma_read_after_write(
    project: ProjectView,
    key: Seq<char>,
    field: Field,
    value: ValueView,
)
    requires
        project.field(key, field).is_some(),
        value.fits(field),
    ensures
        project.with_field(key, field, value).field(key, field) == Some(value),
{
}

/// The version of the editor that a new project is marked with.
pub open spec fn app_version_text() -> Seq<char> {
    "0.13.3"@
}

impl Default for VoiceVoxProject {
    /// A new project: one empty line, under a key drawn at random.
    fn default() -> (r: VoiceVoxProject)
        ensures
            r@.app_version == app_version_text(),
            r@.audio_keys.len() == 1,
            r@.audio_items == Map::<Seq<char>, AudioItemView>::empty().insert(
                r@.audio_keys[0],
                AudioItemView::initial(),
            ),
            r@.keys_resolve(),
    {
        let mut project = VoiceVoxProject::new("0.13.3".to_owned());
        let key = fresh_key();
        let ghost k = key@;
        let added = project.add_line(key, AudioItem::initial());
        assert(added);
        assert(project@.audio_keys[0] == k);
        project
    }
}

} // verus!
