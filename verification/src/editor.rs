//! The editor as a state machine: what it holds, what each message does to
//! it, and what has to be done outside in return.
//!
//! The machine does no input or output of its own. Whoever runs it hands it
//! one message at a time, carries out the commands that come back (a call to
//! the engine, a file to pick or to write, the state to save), and hands in
//! the outcome as a further message.

use std::collections::{BTreeMap, BTreeSet};
use vstd::prelude::*;
use vstd::string::StringExecFns;
use crate::api;
use crate::api::APIError;
use crate::api_schema::{MorphableTargetInfo, Speaker, SpeakerInfo};
use crate::characters::{
    build_character_change_menu, character_menu, enter_styles, in_key_order,
    lemma_placed_in_order, morphable_among, morphable_ids, place, placed, portrait_of, style_ids,
    styles_entered, table_view, CharacterOptionView, OptionsOwned, Portrait, PortraitView,
    StyleEntryView, StyleTable,
};
use crate::history::{Diff, DiffView, History, HistoryView};
use crate::menu::{EngineMenu, FileMenu, Page, SettingsMenu};
use crate::project::{Field, ProjectView, ValueView};
use crate::scalar::Scalar;
use crate::state::{LoadError, SaveError, TabContext, TabView, VoiceVoxState, VoiceVoxStateView};
use crate::toolbar::{
    default_tools, moved_left, moved_right, without, ConfigureMessage, ToolBarConfig, ToolBarKind,
};
use crate::views::{opt_view, seq_view};

verus! {

/// What a call to the engine is.
pub enum APICallView {
    Speakers(Option<Seq<char>>),
    SpeakerInfo(Speaker, Seq<char>, Option<Seq<char>>),
    MorpableTargets(i32, Seq<i32>, Option<Seq<char>>),
}

/// A call to the engine that the editor asks for.
#[derive(Debug, Clone, PartialEq)]
pub enum APICall {
    /// Ask for the characters.
    Speakers(api::Speakers),
    /// Ask for the details of the given character.
    SpeakerInfo(Speaker, api::SpeakerInfo),
    /// Ask into which styles the style with the given number can be morphed.
    MorpableTargets(i32, api::MorpableTargets),
}

impl View for APICall {
    type V = APICallView;

    open spec fn view(&self) -> APICallView {
        match self {
            APICall::Speakers(call) => APICallView::Speakers(opt_view(call.core_version)),
            APICall::SpeakerInfo(speaker, call) => APICallView::SpeakerInfo(
                *speaker,
                call.speaker_uuid@,
                opt_view(call.core_version),
            ),
            APICall::MorpableTargets(id, call) => APICallView::MorpableTargets(
                *id,
                call.style_id@,
                opt_view(call.core_version),
            ),
        }
    }
}

/// The outcome of a call to the engine.
#[derive(Debug, PartialEq)]
pub enum APIResult {
    /// The characters.
    Speakers(Result<Vec<Speaker>, APIError>),
    /// The details of the given character.
    SpeakerInfo(Speaker, Result<SpeakerInfo, APIError>),
    /// For each style that was asked about, the styles it was weighed
    /// against, with the verdict. The number is that of the first style
    /// asked about.
    MorpableTargets(i32, Result<Vec<Vec<(i32, MorphableTargetInfo)>>, APIError>),
}

/// What can happen to the editor.
#[derive(Debug, PartialEq)]
pub enum Message {
    FileMenuOpen(FileMenu),
    EngineMenuOpen(EngineMenu),
    SettingsMenuOpen(SettingsMenu),
    HelpMenuOpen,
    ToolBar(ToolBarKind),
    Loaded(Result<VoiceVoxState, LoadError>),
    Saved(Result<(), SaveError>),
    ToolBarConfig(ConfigureMessage),
    /// A pane was resized. The sizes of the panes are kept outside.
    IntabPaneResize,
    TabSelect(usize),
    TabClose(usize),
    EditText(String, String),
    SpeedChange(String, Scalar),
    PitchChange(String, Scalar),
    IntonationChange(String, Scalar),
    VolumeChange(String, Scalar),
    PrePhonemeLengthChange(String, Scalar),
    PostPhonemeLengthChange(String, Scalar),
    QueryParameterCommit,
    APICall(APICall),
    APIResult(APIResult),
    CharacterChange(String, i32),
    FileLoadError,
    NewTab(TabContext),
    NewAudioCell,
}

impl APIResult {
    /// Whether `copy` is what a copy of `self` is: the same kind of outcome
    /// about the same style, a success for a success, and for a failure the
    /// copy of the failure.
    pub open spec fn copied_as(self, copy: APIResult) -> bool {
        match (self, copy) {
            (APIResult::Speakers(Ok(_)), APIResult::Speakers(Ok(_))) => true,
            (APIResult::Speakers(Err(e)), APIResult::Speakers(Err(c))) => c@ == e@.copied(),
            (APIResult::SpeakerInfo(_, Ok(info)), APIResult::SpeakerInfo(_, Ok(c))) => true,
            (APIResult::SpeakerInfo(_, Err(e)), APIResult::SpeakerInfo(_, Err(c))) => c@
                == e@.copied(),
            (
                APIResult::MorpableTargets(id, Ok(_)),
                APIResult::MorpableTargets(copied_id, Ok(_)),
            ) => copied_id == id,
            (
                APIResult::MorpableTargets(id, Err(e)),
                APIResult::MorpableTargets(copied_id, Err(c)),
            ) => copied_id == id && c@ == e@.copied(),
            _ => false,
        }
    }
}

impl Clone for APIResult {
    fn clone(&self) -> (r: APIResult)
        ensures
            self.copied_as(r),
    {
        match self {
            APIResult::Speakers(Ok(speakers)) => APIResult::Speakers(Ok(speakers.clone())),
            APIResult::Speakers(Err(e)) => APIResult::Speakers(Err(e.clone())),
            APIResult::SpeakerInfo(speaker, Ok(info)) => APIResult::SpeakerInfo(
                speaker.clone(),
                Ok(info.clone()),
            ),
            APIResult::SpeakerInfo(speaker, Err(e)) => APIResult::SpeakerInfo(
                speaker.clone(),
                Err(e.clone()),
            ),
            APIResult::MorpableTargets(id, Ok(targets)) => APIResult::MorpableTargets(
                *id,
                Ok(targets.clone()),
            ),
            APIResult::MorpableTargets(id, Err(e)) => APIResult::MorpableTargets(
                *id,
                Err(e.clone()),
            ),
        }
    }
}

impl Message {
    /// Whether `copy` is what a copy of `self` is. A message that carries
    /// only texts, numbers and choices is copied exactly. Of a message that
    /// carries a state, a tab or a call, the copy is a message of the same
    /// kind; of one that carries an outcome, see [`APIResult::copied_as`].
    pub open spec fn copied_as(self, copy: Message) -> bool {
        match self {
            Message::Loaded(Ok(_)) => copy matches Message::Loaded(Ok(_)),
            Message::NewTab(_) => copy is NewTab,
            Message::APICall(_) => copy is APICall,
            Message::APIResult(result) => copy matches Message::APIResult(c) && result.copied_as(c),
            _ => copy == self,
        }
    }
}

impl Clone for Message {
    fn clone(&self) -> (r: Message)
        ensures
            self.copied_as(r),
    {
        match self {
            Message::FileMenuOpen(entry) => Message::FileMenuOpen(*entry),
            Message::EngineMenuOpen(entry) => Message::EngineMenuOpen(*entry),
            Message::SettingsMenuOpen(entry) => Message::SettingsMenuOpen(*entry),
            Message::HelpMenuOpen => Message::HelpMenuOpen,
            Message::ToolBar(kind) => Message::ToolBar(*kind),
            Message::Loaded(Ok(state)) => Message::Loaded(Ok(state.clone())),
            Message::Loaded(Err(e)) => Message::Loaded(Err(*e)),
            Message::Saved(Ok(done)) => Message::Saved(Ok(*done)),
            Message::Saved(Err(e)) => Message::Saved(Err(*e)),
            Message::ToolBarConfig(m) => Message::ToolBarConfig(*m),
            Message::IntabPaneResize => Message::IntabPaneResize,
            Message::TabSelect(i) => Message::TabSelect(*i),
            Message::TabClose(i) => Message::TabClose(*i),
            Message::EditText(key, text) => Message::EditText(key.clone(), text.clone()),
            Message::SpeedChange(key, after) => Message::SpeedChange(key.clone(), *after),
            Message::PitchChange(key, after) => Message::PitchChange(key.clone(), *after),
            Message::IntonationChange(key, after) => Message::IntonationChange(key.clone(), *after),
            Message::VolumeChange(key, after) => Message::VolumeChange(key.clone(), *after),
            Message::PrePhonemeLengthChange(key, after) => Message::PrePhonemeLengthChange(
                key.clone(),
                *after,
            ),
            Message::PostPhonemeLengthChange(key, after) => Message::PostPhonemeLengthChange(
                key.clone(),
                *after,
            ),
            Message::QueryParameterCommit => Message::QueryParameterCommit,
            Message::APICall(call) => Message::APICall(call.clone()),
            Message::APIResult(result) => Message::APIResult(result.clone()),
            Message::CharacterChange(key, after) => Message::CharacterChange(key.clone(), *after),
            Message::FileLoadError => Message::FileLoadError,
            Message::NewTab(tab) => Message::NewTab(tab.clone()),
            Message::NewAudioCell => Message::NewAudioCell,
        }
    }
}

/// What a diagnostic is.
pub enum DiagnosticView {
    NothingToCommit,
    NotSquashed(DiffView, DiffView),
}

/// Something that went other than the caller of the history meant, for the
/// log: nothing breaks, and the user is not told.
#[derive(Debug, Clone, PartialEq)]
pub enum Diagnostic {
    /// A commit found no edit to commit.
    NothingToCommit,
    /// A commit found a gesture whose first and last edit, which are given,
    /// do not change the same field of the same line, and did not fold it.
    NotSquashed(Diff, Diff),
}

impl View for Diagnostic {
    type V = DiagnosticView;

    open spec fn view(&self) -> DiagnosticView {
        match self {
            Diagnostic::NothingToCommit => DiagnosticView::NothingToCommit,
            Diagnostic::NotSquashed(first, last) => DiagnosticView::NotSquashed(first@, last@),
        }
    }
}

/// What a commit of the history has to report: nothing where the gesture
/// folds, and else that there was no edit, or the first and the last edit of
/// the gesture that was not folded.
pub open spec fn commit_report(history: HistoryView) -> Seq<CommandView> {
    if history.pending_buffer.len() == 0 {
        seq![CommandView::Report(DiagnosticView::NothingToCommit)]
    } else if history.folds() {
        Seq::empty()
    } else {
        seq![
            CommandView::Report(
                DiagnosticView::NotSquashed(
                    history.pending_buffer.first(),
                    history.pending_buffer.last(),
                ),
            ),
        ]
    }
}

/// What a command is.
pub enum CommandView {
    Load,
    Call(APICallView),
    PickProject,
    WriteProject(TabView),
    Save,
    Report(DiagnosticView),
}

/// What the editor asks to be done outside.
#[derive(Debug, Clone, PartialEq)]
pub enum Command {
    /// Read the remembered state of the editor from where it is kept, and
    /// hand in the state, or the failure, as [`Message::Loaded`].
    Load,
    /// Call the engine, and hand in the outcome as an [`APIResult`].
    Call(APICall),
    /// Let the user pick a project file and read it, and hand in the project
    /// as a new tab, or the failure.
    PickProject,
    /// Write the project of the tab to the file that the tab names, and hand
    /// in how it went as [`Message::Saved`].
    WriteProject(TabContext),
    /// Write the remembered state of the editor to where it is kept, and
    /// hand in how it went as [`Message::Saved`].
    Save,
    /// Write the diagnostic to the log.
    Report(Diagnostic),
}

impl View for Command {
    type V = CommandView;

    open spec fn view(&self) -> CommandView {
        match self {
            Command::Load => CommandView::Load,
            Command::Call(call) => CommandView::Call(call@),
            Command::PickProject => CommandView::PickProject,
            Command::WriteProject(tab) => CommandView::WriteProject(tab@),
            Command::Save => CommandView::Save,
            Command::Report(diagnostic) => CommandView::Report(diagnostic@),
        }
    }
}

impl Message {
    /// The edit that the message asks for, if it asks for one: the field and
    /// the line it names, and the wanted value. The value before is a
    /// placeholder: no text, zero, the first style.
    pub open spec fn edit(self) -> Option<DiffView> {
        match self {
            Message::EditText(key, text) => Some(
                DiffView {
                    kind: Field::Text,
                    target: key@,
                    before: ValueView::Text(Seq::empty()),
                    after: ValueView::Text(text@),
                },
            ),
            Message::SpeedChange(key, after) => Some(number_edit(Field::Speed, key@, after)),
            Message::PitchChange(key, after) => Some(number_edit(Field::Pitch, key@, after)),
            Message::IntonationChange(key, after) => Some(
                number_edit(Field::Intonation, key@, after),
            ),
            Message::VolumeChange(key, after) => Some(number_edit(Field::Volume, key@, after)),
            Message::PrePhonemeLengthChange(key, after) => Some(
                number_edit(Field::PrePhonemeLength, key@, after),
            ),
            Message::PostPhonemeLengthChange(key, after) => Some(
                number_edit(Field::PostPhonemeLength, key@, after),
            ),
            Message::CharacterChange(key, after) => Some(
                DiffView {
                    kind: Field::Style,
                    target: key@,
                    before: ValueView::Style(0),
                    after: ValueView::Style(after),
                },
            ),
            _ => None,
        }
    }

    /// Whether the message reports that the state was saved.
    pub open spec fn is_saved(self) -> bool {
        self matches Message::Saved(Ok(_))
    }
}

/// The edit of a parameter of the line named `key` to the value `after`.
pub open spec fn number_edit(kind: Field, key: Seq<char>, after: Scalar) -> DiffView {
    DiffView {
        kind,
        target: key,
        before: ValueView::Number(Scalar { bits: 0 }),
        after: ValueView::Number(after),
    }
}

/// The edit that a message asks for, or the message where it asks for none.
pub fn edit_of(message: Message) -> (r: Result<Diff, Message>)
    ensures
        match r {
            Ok(diff) => message.edit() == Some(diff@),
            Err(m) => message.edit().is_none() && m == message,
        },
{
    match message {
        Message::EditText(audio_item_key, after) => Ok(
            Diff::Text { audio_item_key, before: String::new(), after },
        ),
        Message::SpeedChange(audio_item_key, after) => Ok(
            Diff::Speed { audio_item_key, before: Scalar::zero(), after },
        ),
        Message::PitchChange(audio_item_key, after) => Ok(
            Diff::Pitch { audio_item_key, before: Scalar::zero(), after },
        ),
        Message::IntonationChange(audio_item_key, after) => Ok(
            Diff::Intonation { audio_item_key, before: Scalar::zero(), after },
        ),
        Message::VolumeChange(audio_item_key, after) => Ok(
            Diff::Volume { audio_item_key, before: Scalar::zero(), after },
        ),
        Message::PrePhonemeLengthChange(audio_item_key, after) => Ok(
            Diff::PrePhonemeLength { audio_item_key, before: Scalar::zero(), after },
        ),
        Message::PostPhonemeLengthChange(audio_item_key, after) => Ok(
            Diff::PostPhonemeLength { audio_item_key, before: Scalar::zero(), after },
        ),
        Message::CharacterChange(audio_item_key, after) => Ok(
            Diff::CharacterChange { audio_item_key, before: 0, after },
        ),
        other => Err(other),
    }
}

/// What the editor holds.
pub struct StateView {
    /// Whether something has changed since the state was last saved.
    pub dirty: bool,
    /// Whether a save is under way.
    pub saving: bool,
    pub opening_page: Page,
    /// The tool chosen on the page that arranges the tool bar.
    pub configure_ui_selected_tool: ToolBarKind,
    /// The tool bar as that page shows it, before it is saved.
    pub toolbar_ui_temp_config: Seq<ToolBarKind>,
    pub persistence: VoiceVoxStateView,
    /// The history of each tab, in the order of the tabs.
    pub tracking_buffer: Seq<HistoryView>,
    /// The characters, in the order of their keys.
    pub portrait_and_names: Seq<PortraitView>,
    /// The voice styles, by number.
    pub style_id_uuid_table: Map<i32, StyleEntryView>,
    pub character_change_menu: Seq<CharacterOptionView>,
    /// How many voice styles were known when the menu was built.
    pub prev_style_id_table_len: usize,
    /// For each style asked about, the styles into which it can be morphed.
    pub morphable_targets: Map<i32, Set<i32>>,
}

/// Whether `tab` is what a tab with a new project is: not saved yet, the
/// first line being edited, and a project of one empty line.
pub open spec fn is_new_tab(tab: TabView) -> bool {
    &&& tab.file_name == crate::state::unnamed()
    &&& tab.editing_line == 0
    &&& tab.project.app_version == crate::project::app_version_text()
    &&& tab.project.audio_keys.len() == 1
    &&& tab.project.audio_items == Map::<Seq<char>, crate::project::AudioItemView>::empty().insert(
        tab.project.audio_keys[0],
        crate::project::AudioItemView::initial(),
    )
}

/// Whether `after` is `before` with one empty line added at the end, under a
/// key that no line of `before` has, or else is `before` itself.
pub open spec fn cell_added(before: ProjectView, after: ProjectView) -> bool {
    ||| after == before
    ||| exists|key: Seq<char>|
        {
            &&& !before.audio_items.contains_key(key)
            &&& #[trigger] before.audio_keys.push(key) == after.audio_keys
            &&& after.audio_items == before.audio_items.insert(
                key,
                crate::project::AudioItemView::initial(),
            )
            &&& after.app_version == before.app_version
        }
}

impl StateView {
    /// Whether every tab has its history.
    pub open spec fn wf(self) -> bool {
        self.tracking_buffer.len() == self.persistence.tabs.len()
    }

    /// The state that the editor starts from, given what it remembers: the
    /// main page, nothing to save, a history without entries for each tab,
    /// and nothing known of the engine yet.
    pub open spec fn initial(persistence: VoiceVoxStateView) -> StateView {
        StateView {
            dirty: false,
            saving: false,
            opening_page: Page::Main,
            configure_ui_selected_tool: ToolBarKind::ContinuosPlay,
            toolbar_ui_temp_config: default_tools(),
            persistence,
            tracking_buffer: Seq::new(persistence.tabs.len(), |i: int| HistoryView::empty()),
            portrait_and_names: Seq::empty(),
            style_id_uuid_table: Map::empty(),
            character_change_menu: Seq::empty(),
            prev_style_id_table_len: 0,
            morphable_targets: Map::empty(),
        }
    }

    /// The place of the tab that is shown, where a tab was chosen and there
    /// is a tab at that place.
    pub open spec fn shown_tab(self) -> Option<int> {
        match self.persistence.viewing_tab {
            Some(i) if i < self.persistence.tabs.len() => Some(i as int),
            _ => None,
        }
    }

    /// The state with the menu of characters brought up to date: it is built
    /// anew where the number of known styles has changed since it was built.
    pub open spec fn refreshed(self) -> StateView {
        if self.prev_style_id_table_len != self.style_id_uuid_table.len() {
            StateView {
                character_change_menu: character_menu(
                    self.portrait_and_names,
                    self.style_id_uuid_table,
                ),
                prev_style_id_table_len: self.style_id_uuid_table.len() as usize,
                ..self
            }
        } else {
            self
        }
    }

    /// The state with the project and the history of the tab at place `i`
    /// replaced.
    pub open spec fn with_tab(self, i: int, project: ProjectView, history: HistoryView) -> StateView {
        StateView {
            persistence: VoiceVoxStateView {
                tabs: self.persistence.tabs.update(
                    i,
                    TabView { project, ..self.persistence.tabs[i] },
                ),
                ..self.persistence
            },
            tracking_buffer: self.tracking_buffer.update(i, history),
            ..self
        }
    }

    /// The state after an edit of the tab that is shown: the edit is applied
    /// to the project and recorded in the history of the tab. Nothing
    /// changes where no tab is shown.
    pub open spec fn edited(self, edit: DiffView) -> StateView {
        match self.shown_tab() {
            Some(i) => {
                let project = self.persistence.tabs[i].project;
                self.with_tab(
                    i,
                    edit.applied_to(project),
                    self.tracking_buffer[i].applied(edit.completed_in(project)),
                )
            },
            None => self,
        }
    }

    /// The state after an undo in the tab that is shown.
    pub open spec fn undone(self) -> StateView {
        match self.shown_tab() {
            Some(i) => self.with_tab(
                i,
                self.tracking_buffer[i].undo_in(self.persistence.tabs[i].project),
                self.tracking_buffer[i].undone(),
            ),
            None => self,
        }
    }

    /// The state after a redo in the tab that is shown.
    pub open spec fn redone(self) -> StateView {
        match self.shown_tab() {
            Some(i) => self.with_tab(
                i,
                self.tracking_buffer[i].redo_in(self.persistence.tabs[i].project),
                self.tracking_buffer[i].redone(),
            ),
            None => self,
        }
    }

    /// The state after the gesture in progress in the chosen tab is
    /// committed. Nothing changes where no tab was chosen.
    pub open spec fn committed(self) -> StateView {
        match self.persistence.viewing_tab {
            Some(i) => StateView {
                tracking_buffer: self.tracking_buffer.update(
                    i as int,
                    self.tracking_buffer[i as int].committed(),
                ),
                ..self
            },
            None => self,
        }
    }

    /// What the commit in the chosen tab has to report: see
    /// [`commit_report`].
    pub open spec fn commit_commands(self) -> Seq<CommandView> {
        match self.persistence.viewing_tab {
            Some(i) => commit_report(self.tracking_buffer[i as int]),
            None => Seq::empty(),
        }
    }

    /// The state with one more tab, last, and its history without entries.
    pub open spec fn with_new_tab(self, tab: TabView) -> StateView {
        StateView {
            persistence: VoiceVoxStateView {
                tabs: self.persistence.tabs.push(tab),
                ..self.persistence
            },
            tracking_buffer: self.tracking_buffer.push(HistoryView::empty()),
            ..self
        }
    }

    /// The state with the chosen tab set.
    pub open spec fn showing(self, viewing_tab: Option<usize>) -> StateView {
        StateView { persistence: VoiceVoxStateView { viewing_tab, ..self.persistence }, ..self }
    }

    /// The state without the tab at place `i` and without its history.
    pub open spec fn without_tab(self, i: int) -> StateView {
        StateView {
            persistence: VoiceVoxStateView {
                tabs: self.persistence.tabs.remove(i),
                ..self.persistence
            },
            tracking_buffer: self.tracking_buffer.remove(i),
            ..self
        }
    }

    /// The state after something was done on the page that arranges the tool
    /// bar.
    pub open spec fn configured(self, message: ConfigureMessage) -> StateView {
        match message {
            ConfigureMessage::Toggle(kind, false) => StateView {
                toolbar_ui_temp_config: without(self.toolbar_ui_temp_config, kind),
                ..self
            },
            ConfigureMessage::Toggle(kind, true) => StateView {
                toolbar_ui_temp_config: self.toolbar_ui_temp_config.push(kind),
                ..self
            },
            ConfigureMessage::RestoreDefault => StateView {
                toolbar_ui_temp_config: default_tools(),
                ..self
            },
            ConfigureMessage::Save => StateView {
                persistence: VoiceVoxStateView {
                    tool_bar_config: self.toolbar_ui_temp_config,
                    ..self.persistence
                },
                ..self
            },
            ConfigureMessage::Exit => StateView { opening_page: Page::Main, ..self },
            ConfigureMessage::MoveLeft => StateView {
                toolbar_ui_temp_config: moved_left(
                    self.toolbar_ui_temp_config,
                    self.configure_ui_selected_tool,
                ),
                ..self
            },
            ConfigureMessage::MoveRight => StateView {
                toolbar_ui_temp_config: moved_right(
                    self.toolbar_ui_temp_config,
                    self.configure_ui_selected_tool,
                ),
                ..self
            },
            ConfigureMessage::Remove => StateView {
                toolbar_ui_temp_config: without(
                    self.toolbar_ui_temp_config,
                    self.configure_ui_selected_tool,
                ),
                ..self
            },
            ConfigureMessage::Select(kind) => StateView {
                configure_ui_selected_tool: kind,
                ..self
            },
        }
    }

    /// The state after the details of a character have come in: the
    /// character is put in its place, and its styles are entered.
    pub open spec fn with_character(self, speaker: Speaker, info: SpeakerInfo) -> StateView {
        StateView {
            portrait_and_names: placed(
                self.portrait_and_names,
                PortraitView {
                    speaker_uuid: speaker.speaker_uuid@,
                    portrait: info.portrait@,
                    name: speaker.name@,
                    style_ids: style_ids(speaker.styles@),
                },
            ),
            style_id_uuid_table: styles_entered(
                self.style_id_uuid_table,
                speaker.speaker_uuid@,
                speaker.styles@,
                info.style_infos@,
            ),
            ..self
        }
    }

    /// The state with the styles into which the style `id` can be morphed.
    pub open spec fn with_targets(self, id: i32, targets: Seq<(i32, MorphableTargetInfo)>) -> StateView {
        StateView {
            morphable_targets: self.morphable_targets.insert(id, morphable_among(targets)),
            ..self
        }
    }

    /// Whether a save is asked for after a message: there is something to
    /// save, which is so after every message but the report of a save, and
    /// no save is under way.
    pub open spec fn asks_to_save(self, saved: bool) -> bool {
        if saved {
            self.dirty
        } else {
            !self.saving
        }
    }

    /// The state with the two flags of saving as they are after a message.
    pub open spec fn settled(self, saved: bool) -> StateView {
        if self.asks_to_save(saved) {
            StateView { dirty: false, saving: true, ..self }
        } else if saved {
            StateView { saving: false, ..self }
        } else {
            StateView { dirty: true, ..self }
        }
    }

    /// Whether the editor takes the message. It does not take a menu entry
    /// or a tool that does nothing yet, the closing of a tab that is not
    /// there, a commit while a tab is chosen that is not there, or an answer
    /// about morphing that holds no list.
    pub open spec fn accepts(self, message: Message) -> bool {
        match message {
            Message::FileMenuOpen(entry) => entry.is_supported(),
            Message::SettingsMenuOpen(entry) => entry.is_supported(),
            Message::ToolBar(kind) => kind == ToolBarKind::Undo || kind == ToolBarKind::Redo,
            Message::TabClose(i) => i < self.persistence.tabs.len(),
            Message::QueryParameterCommit => match self.persistence.viewing_tab {
                Some(i) => i < self.persistence.tabs.len(),
                None => true,
            },
            Message::APIResult(APIResult::MorpableTargets(_, Ok(targets))) => targets.len() > 0,
            _ => true,
        }
    }
}

/// The calls that ask for the details of each character, in order.
pub open spec fn info_calls(speakers: Seq<Speaker>) -> Seq<CommandView> {
    Seq::new(
        speakers.len(),
        |i: int|
            CommandView::Call(
                APICallView::SpeakerInfo(speakers[i], speakers[i].speaker_uuid@, None),
            ),
    )
}

/// The calls that ask about the morphing of each style of a character, in
/// order.
pub open spec fn target_calls(speaker: Speaker) -> Seq<CommandView> {
    Seq::new(
        speaker.styles@.len(),
        |i: int|
            CommandView::Call(
                APICallView::MorpableTargets(speaker.styles[i].id, seq![speaker.styles[i].id], None),
            ),
    )
}

/// Whether a message takes the editor from `pre` to `post` and asks for
/// `commands`, the two flags of saving and the command to save left aside.
pub open spec fn steps(
    pre: StateView,
    message: Message,
    post: StateView,
    commands: Seq<CommandView>,
) -> bool {
    match message {
        Message::FileMenuOpen(FileMenu::NewProject) => {
            &&& post.persistence.tabs.len() == pre.persistence.tabs.len() + 1
            &&& is_new_tab(post.persistence.tabs.last())
            &&& post == pre.with_new_tab(post.persistence.tabs.last()).showing(
                Some(pre.persistence.tabs.len() as usize),
            )
            &&& commands == Seq::<CommandView>::empty()
        },
        Message::FileMenuOpen(FileMenu::LoadProject) => {
            &&& post == pre
            &&& commands == seq![CommandView::PickProject]
        },
        Message::SettingsMenuOpen(SettingsMenu::ToolbarConfig) => {
            &&& post == (StateView {
                opening_page: Page::ToolBarConfig,
                toolbar_ui_temp_config: pre.persistence.tool_bar_config,
                ..pre
            })
            &&& commands == Seq::<CommandView>::empty()
        },
        Message::ToolBar(ToolBarKind::Undo) => {
            &&& post == pre.undone()
            &&& commands == Seq::<CommandView>::empty()
        },
        Message::ToolBar(ToolBarKind::Redo) => {
            &&& post == pre.redone()
            &&& commands == Seq::<CommandView>::empty()
        },
        Message::ToolBarConfig(m) => {
            &&& post == pre.configured(m)
            &&& commands == Seq::<CommandView>::empty()
        },
        Message::TabSelect(i) => {
            &&& post == pre.showing(Some(i))
            &&& commands == Seq::<CommandView>::empty()
        },
        Message::TabClose(i) => {
            &&& post == pre.without_tab(i as int)
            &&& commands == seq![CommandView::WriteProject(pre.persistence.tabs[i as int])]
        },
        Message::APIResult(APIResult::Speakers(Ok(speakers))) => {
            &&& post == pre
            &&& commands == info_calls(speakers@)
        },
        Message::APIResult(APIResult::SpeakerInfo(speaker, Ok(info))) => {
            &&& post == pre.with_character(speaker, info)
            &&& commands == target_calls(speaker)
        },
        Message::APIResult(APIResult::MorpableTargets(id, Ok(targets))) => {
            &&& post == pre.with_targets(id, targets[0]@)
            &&& commands == Seq::<CommandView>::empty()
        },
        Message::QueryParameterCommit => {
            &&& post == pre.committed()
            &&& commands == pre.commit_commands()
        },
        Message::NewTab(tab) => {
            &&& post == pre.with_new_tab(tab@)
            &&& commands == Seq::<CommandView>::empty()
        },
        Message::NewAudioCell => {
            &&& commands == Seq::<CommandView>::empty()
            &&& match pre.shown_tab() {
                Some(i) => {
                    &&& post.persistence.tabs.len() == pre.persistence.tabs.len()
                    &&& cell_added(
                        pre.persistence.tabs[i].project,
                        post.persistence.tabs[i].project,
                    )
                    &&& post == pre.with_tab(
                        i,
                        post.persistence.tabs[i].project,
                        pre.tracking_buffer[i],
                    )
                },
                None => post == pre,
            }
        },
        _ => {
            &&& commands == Seq::<CommandView>::empty()
            &&& match message.edit() {
                Some(edit) => post == pre.edited(edit),
                None => post == pre,
            }
        },
    }
}

/// What a table of morphing targets holds.
pub open spec fn targets_view(table: Map<i32, BTreeSet<i32>>) -> Map<i32, Set<i32>> {
    table.map_values(|s: BTreeSet<i32>| s@)
}

/// The editor once it has started.
#[derive(Debug)]
pub struct State {
    dirty: bool,
    saving: bool,
    opening_page: Page,
    configure_ui_selected_tool: ToolBarKind,
    toolbar_ui_temp_config: ToolBarConfig,
    persistence: VoiceVoxState,
    tracking_buffer: Vec<History>,
    portrait_and_names: Vec<Portrait>,
    style_id_uuid_table: StyleTable,
    character_change_menu: OptionsOwned,
    prev_style_id_table_len: usize,
    morphable_targets: BTreeMap<i32, BTreeSet<i32>>,
}

impl View for State {
    type V = StateView;

    closed spec fn view(&self) -> StateView {
        StateView {
            dirty: self.dirty,
            saving: self.saving,
            opening_page: self.opening_page,
            configure_ui_selected_tool: self.configure_ui_selected_tool,
            toolbar_ui_temp_config: self.toolbar_ui_temp_config@,
            persistence: self.persistence@,
            tracking_buffer: seq_view(self.tracking_buffer@),
            portrait_and_names: seq_view(self.portrait_and_names@),
            style_id_uuid_table: table_view(self.style_id_uuid_table@),
            character_change_menu: seq_view(self.character_change_menu@),
            prev_style_id_table_len: self.prev_style_id_table_len,
            morphable_targets: targets_view(self.morphable_targets@),
        }
    }
}

impl State {
    /// The state that the editor starts from, given what it remembers.
    pub fn new(persistence: VoiceVoxState) -> (r: State)
        ensures
            r@ == StateView::initial(persistence@),
            r@.wf(),
    {
        let mut tracking_buffer: Vec<History> = Vec::new();
        let mut i: usize = 0;
        while i < persistence.tabs.len()
            invariant
                i <= persistence.tabs.len(),
                tracking_buffer.len() == i,
                forall|j: int| 0 <= j < i ==> (#[trigger] tracking_buffer[j])@ == HistoryView::empty(),
            decreases persistence.tabs.len() - i,
        {
            tracking_buffer.push(History::new());
            i += 1;
        }
        let r = State {
            dirty: false,
            saving: false,
            opening_page: Page::Main,
            configure_ui_selected_tool: ToolBarKind::default(),
            toolbar_ui_temp_config: ToolBarConfig::default(),
            persistence,
            tracking_buffer,
            portrait_and_names: Vec::new(),
            style_id_uuid_table: BTreeMap::new(),
            character_change_menu: Vec::new(),
            prev_style_id_table_len: 0,
            morphable_targets: BTreeMap::new(),
        };
        proof {
            let v = StateView::initial(persistence@);
            assert(r@.tracking_buffer =~= v.tracking_buffer);
            assert(r@.portrait_and_names =~= v.portrait_and_names);
            assert(r@.style_id_uuid_table =~= v.style_id_uuid_table);
            assert(r@.character_change_menu =~= v.character_change_menu);
            assert(r@.morphable_targets =~= v.morphable_targets);
        }
        r
    }

    /// Whether something has changed since the state was last saved.
    pub fn dirty(&self) -> (r: bool)
        ensures
            r == self@.dirty,
    {
        self.dirty
    }

    /// Whether a save is under way.
    pub fn saving(&self) -> (r: bool)
        ensures
            r == self@.saving,
    {
        self.saving
    }

    /// The page that the window shows.
    pub fn opening_page(&self) -> (r: Page)
        ensures
            r == self@.opening_page,
    {
        self.opening_page
    }

    /// The tool chosen on the page that arranges the tool bar.
    pub fn configure_ui_selected_tool(&self) -> (r: ToolBarKind)
        ensures
            r == self@.configure_ui_selected_tool,
    {
        self.configure_ui_selected_tool
    }

    /// The tool bar as the page that arranges it shows it.
    pub fn toolbar_ui_temp_config(&self) -> (r: &ToolBarConfig)
        ensures
            r@ == self@.toolbar_ui_temp_config,
    {
        &self.toolbar_ui_temp_config
    }

    /// What the editor remembers between runs.
    pub fn persistence(&self) -> (r: &VoiceVoxState)
        ensures
            r@ == self@.persistence,
    {
        &self.persistence
    }

    /// The history of each tab, in the order of the tabs.
    pub fn tracking_buffer(&self) -> (r: &Vec<History>)
        ensures
            seq_view(r@) == self@.tracking_buffer,
    {
        &self.tracking_buffer
    }

    /// The characters, in the order of their keys.
    pub fn portrait_and_names(&self) -> (r: &Vec<Portrait>)
        ensures
            seq_view(r@) == self@.portrait_and_names,
    {
        &self.portrait_and_names
    }

    /// The voice styles, by number.
    pub fn style_id_uuid_table(&self) -> (r: &StyleTable)
        ensures
            table_view(r@) == self@.style_id_uuid_table,
    {
        &self.style_id_uuid_table
    }

    /// The menu from which the voice of a line is chosen.
    pub fn character_change_menu(&self) -> (r: &OptionsOwned)
        ensures
            seq_view(r@) == self@.character_change_menu,
    {
        &self.character_change_menu
    }

    /// For each style asked about, the styles into which it can be morphed.
    pub fn morphable_targets(&self) -> (r: &BTreeMap<i32, BTreeSet<i32>>)
        ensures
            targets_view(r@) == self@.morphable_targets,
    {
        &self.morphable_targets
    }

    /// Whether every tab has its history and the editor takes the message:
    /// see [`StateView::accepts`].
    pub fn accepts(&self, message: &Message) -> (r: bool)
        ensures
            r == (self@.wf() && self@.accepts(*message)),
    {
        if self.tracking_buffer.len() != self.persistence.tabs.len() {
            return false;
        }
        match message {
            Message::FileMenuOpen(entry) => match entry {
                FileMenu::NewProject => true,
                FileMenu::LoadProject => true,
                _ => false,
            },
            Message::SettingsMenuOpen(entry) => match entry {
                SettingsMenu::ToolbarConfig => true,
                _ => false,
            },
            Message::ToolBar(kind) => match kind {
                ToolBarKind::Undo => true,
                ToolBarKind::Redo => true,
                _ => false,
            },
            Message::TabClose(i) => *i < self.persistence.tabs.len(),
            Message::QueryParameterCommit => match self.persistence.viewing_tab {
                Some(i) => i < self.persistence.tabs.len(),
                None => true,
            },
            Message::APIResult(APIResult::MorpableTargets(_, Ok(targets))) => targets.len() > 0,
            _ => true,
        }
    }

    /// The place of the tab that is shown, where a tab was chosen and there
    /// is a tab at that place.
    pub fn shown_tab(&self) -> (r: Option<usize>)
        ensures
            match r {
                Some(i) => self@.shown_tab() == Some(i as int),
                None => self@.shown_tab().is_none(),
            },
    {
        match self.persistence.viewing_tab {
            Some(i) => if i < self.persistence.tabs.len() {
                Some(i)
            } else {
                None
            },
            None => None,
        }
    }

    /// Brings the menu of characters up to date.
    fn refresh_menu(&mut self)
        ensures
            final(self)@ == old(self)@.refreshed(),
    {
        proof {
            assert(table_view(self.style_id_uuid_table@).dom() =~= self.style_id_uuid_table@.dom());
        }
        if self.prev_style_id_table_len != self.style_id_uuid_table.len() {
            self.character_change_menu =
            build_character_change_menu(&self.portrait_and_names, &self.style_id_uuid_table);
            self.prev_style_id_table_len = self.style_id_uuid_table.len();
        }
    }

    /// Applies an edit to the tab that is shown.
    fn apply_edit(&mut self, diff: Diff)
        requires
            old(self)@.wf(),
        ensures
            final(self)@ == old(self)@.edited(diff@),
            final(self)@.wf(),
    {
        match self.shown_tab() {
            Some(i) => {
                let ghost tabs = self.persistence.tabs@;
                let ghost histories = self.tracking_buffer@;
                self.tracking_buffer[i].apply(diff, &mut self.persistence.tabs[i].project);
                proof {
                    crate::views::lemma_seq_view_update(tabs, i as int, self.persistence.tabs@[i as int]);
                    crate::views::lemma_seq_view_update(
                        histories,
                        i as int,
                        self.tracking_buffer@[i as int],
                    );
                    assert(self.persistence.tabs@ =~= tabs.update(
                        i as int,
                        self.persistence.tabs@[i as int],
                    ));
                    assert(self.tracking_buffer@ =~= histories.update(
                        i as int,
                        self.tracking_buffer@[i as int],
                    ));
                }
            },
            None => {},
        }
    }
}

impl State {
    /// Undoes the last committed edit of the tab that is shown.
    fn undo_shown(&mut self)
        requires
            old(self)@.wf(),
        ensures
            final(self)@ == old(self)@.undone(),
            final(self)@.wf(),
    {
        match self.shown_tab() {
            Some(i) => {
                let ghost tabs = self.persistence.tabs@;
                let ghost histories = self.tracking_buffer@;
                self.tracking_buffer[i].undo(&mut self.persistence.tabs[i].project);
                proof {
                    crate::views::lemma_seq_view_update(tabs, i as int, self.persistence.tabs@[i as int]);
                    crate::views::lemma_seq_view_update(
                        histories,
                        i as int,
                        self.tracking_buffer@[i as int],
                    );
                    assert(self.persistence.tabs@ =~= tabs.update(
                        i as int,
                        self.persistence.tabs@[i as int],
                    ));
                    assert(self.tracking_buffer@ =~= histories.update(
                        i as int,
                        self.tracking_buffer@[i as int],
                    ));
                }
            },
            None => {},
        }
    }

    /// Redoes the last undone edit of the tab that is shown.
    fn redo_shown(&mut self)
        requires
            old(self)@.wf(),
        ensures
            final(self)@ == old(self)@.redone(),
            final(self)@.wf(),
    {
        match self.shown_tab() {
            Some(i) => {
                let ghost tabs = self.persistence.tabs@;
                let ghost histories = self.tracking_buffer@;
                self.tracking_buffer[i].redo(&mut self.persistence.tabs[i].project);
                proof {
                    crate::views::lemma_seq_view_update(tabs, i as int, self.persistence.tabs@[i as int]);
                    crate::views::lemma_seq_view_update(
                        histories,
                        i as int,
                        self.tracking_buffer@[i as int],
                    );
                    assert(self.persistence.tabs@ =~= tabs.update(
                        i as int,
                        self.persistence.tabs@[i as int],
                    ));
                    assert(self.tracking_buffer@ =~= histories.update(
                        i as int,
                        self.tracking_buffer@[i as int],
                    ));
                }
            },
            None => {},
        }
    }

    /// Commits the gesture in progress in the chosen tab, and says what is
    /// to be reported.
    fn commit_chosen(&mut self) -> (r: Vec<Command>)
        requires
            old(self)@.wf(),
            old(self)@.accepts(Message::QueryParameterCommit),
        ensures
            final(self)@ == old(self)@.committed(),
            seq_view(r@) == old(self)@.commit_commands(),
            final(self)@.wf(),
    {
        let mut commands: Vec<Command> = Vec::new();
        assert(seq_view(commands@) =~= Seq::<CommandView>::empty());
        match self.persistence.viewing_tab {
            Some(i) => {
                let ghost histories = self.tracking_buffer@;
                let pending = self.tracking_buffer[i].pending_buffer();
                let n = pending.len();
                if n == 0 {
                    commands.push(Command::Report(Diagnostic::NothingToCommit));
                    assert(seq_view(commands@) =~= seq![
                        CommandView::Report(DiagnosticView::NothingToCommit),
                    ]);
                } else if !pending[0].folds_with(&pending[n - 1]) {
                    let first = pending[0].clone();
                    let last = pending[n - 1].clone();
                    commands.push(Command::Report(Diagnostic::NotSquashed(first, last)));
                    assert(seq_view(commands@) =~= seq![
                        CommandView::Report(DiagnosticView::NotSquashed(first@, last@)),
                    ]);
                }
                self.tracking_buffer[i].commit();
                proof {
                    crate::views::lemma_seq_view_update(
                        histories,
                        i as int,
                        self.tracking_buffer@[i as int],
                    );
                    assert(self.tracking_buffer@ =~= histories.update(
                        i as int,
                        self.tracking_buffer@[i as int],
                    ));
                }
            },
            None => {},
        }
        commands
    }

    /// Opens a tab, last, with a history without entries.
    fn open_tab(&mut self, tab: TabContext)
        requires
            old(self)@.wf(),
        ensures
            final(self)@ == old(self)@.with_new_tab(tab@),
            final(self)@.wf(),
    {
        let history = History::new();
        proof {
            crate::views::lemma_seq_view_push(self.persistence.tabs@, tab);
            crate::views::lemma_seq_view_push(self.tracking_buffer@, history);
        }
        self.persistence.tabs.push(tab);
        self.tracking_buffer.push(history);
    }

    /// Closes the tab at place `i`, and hands it back.
    fn close_tab(&mut self, i: usize) -> (r: TabContext)
        requires
            old(self)@.wf(),
            i < old(self)@.persistence.tabs.len(),
        ensures
            final(self)@ == old(self)@.without_tab(i as int),
            r@ == old(self)@.persistence.tabs[i as int],
            final(self)@.wf(),
    {
        let ghost tabs = self.persistence.tabs@;
        let ghost histories = self.tracking_buffer@;
        let tab = self.persistence.tabs.remove(i);
        self.tracking_buffer.remove(i);
        proof {
            assert(seq_view(self.persistence.tabs@) =~= seq_view(tabs).remove(i as int));
            assert(seq_view(self.tracking_buffer@) =~= seq_view(histories).remove(i as int));
        }
        tab
    }

    /// Adds an empty line to the project of the tab that is shown.
    fn add_cell(&mut self)
        requires
            old(self)@.wf(),
        ensures
            steps(old(self)@, Message::NewAudioCell, final(self)@, Seq::<CommandView>::empty()),
            final(self)@.wf(),
    {
        match self.shown_tab() {
            Some(i) => {
                let ghost tabs = self.persistence.tabs@;
                self.persistence.tabs[i].project.add_audio_cell();
                proof {
                    crate::views::lemma_seq_view_update(tabs, i as int, self.persistence.tabs@[i as int]);
                    assert(self.persistence.tabs@ =~= tabs.update(
                        i as int,
                        self.persistence.tabs@[i as int],
                    ));
                    assert(self@.tracking_buffer =~= old(self)@.tracking_buffer.update(
                        i as int,
                        old(self)@.tracking_buffer[i as int],
                    ));
                }
            },
            None => {},
        }
    }

    /// Carries out what was done on the page that arranges the tool bar.
    fn configure(&mut self, message: ConfigureMessage)
        ensures
            final(self)@ == old(self)@.configured(message),
    {
        match message {
            ConfigureMessage::Toggle(kind, false) => self.toolbar_ui_temp_config.remove(kind),
            ConfigureMessage::Toggle(kind, true) => self.toolbar_ui_temp_config.insert(kind),
            ConfigureMessage::RestoreDefault => {
                self.toolbar_ui_temp_config = ToolBarConfig::default();
            },
            ConfigureMessage::Save => {
                self.persistence.tool_bar_config = self.toolbar_ui_temp_config.clone();
            },
            ConfigureMessage::Exit => {
                self.opening_page = Page::Main;
            },
            ConfigureMessage::MoveLeft => {
                self.toolbar_ui_temp_config.move_left(self.configure_ui_selected_tool);
            },
            ConfigureMessage::MoveRight => {
                self.toolbar_ui_temp_config.move_right(self.configure_ui_selected_tool);
            },
            ConfigureMessage::Remove => {
                self.toolbar_ui_temp_config.remove(self.configure_ui_selected_tool)
            },
            ConfigureMessage::Select(kind) => {
                self.configure_ui_selected_tool = kind;
            },
        }
    }

    /// Takes in the details of a character, and asks about the morphing of
    /// each of its styles.
    fn take_character(&mut self, speaker: Speaker, info: SpeakerInfo) -> (r: Vec<Command>)
        ensures
            final(self)@ == old(self)@.with_character(speaker, info),
            seq_view(r@) == target_calls(speaker),
    {
        place(&mut self.portrait_and_names, portrait_of(&speaker, &info));
        enter_styles(&mut self.style_id_uuid_table, &speaker, &info);
        let mut commands: Vec<Command> = Vec::new();
        let mut i: usize = 0;
        while i < speaker.styles.len()
            invariant
                i <= speaker.styles.len(),
                commands.len() == i,
                forall|j: int| 0 <= j < i ==> (#[trigger] commands[j])@ == target_calls(speaker)[j],
            decreases speaker.styles.len() - i,
        {
            let style_id = speaker.styles[i].id;
            let mut ids: Vec<i32> = Vec::new();
            ids.push(style_id);
            assert(ids@ =~= seq![style_id]);
            commands.push(
                Command::Call(
                    APICall::MorpableTargets(
                        style_id,
                        api::MorpableTargets { style_id: ids, core_version: None },
                    ),
                ),
            );
            i += 1;
        }
        assert(seq_view(commands@) =~= target_calls(speaker));
        commands
    }

    /// Takes in the styles into which a style can be morphed.
    fn take_targets(&mut self, id: i32, targets: &Vec<(i32, MorphableTargetInfo)>)
        ensures
            final(self)@ == old(self)@.with_targets(id, targets@),
    {
        let ids = morphable_ids(targets);
        let ghost before = self.morphable_targets@;
        self.morphable_targets.insert(id, ids);
        proof {
            assert(targets_view(before.insert(id, ids)) =~= targets_view(before).insert(id, ids@));
        }
    }
}

/// The calls that ask for the details of each character.
pub fn ask_for_details(speakers: Vec<Speaker>) -> (r: Vec<Command>)
    ensures
        seq_view(r@) == info_calls(speakers@),
{
    let ghost all = speakers@;
    let mut speakers = speakers;
    let mut commands: Vec<Command> = Vec::new();
    while speakers.len() > 0
        invariant
            speakers@ == all.take(speakers.len() as int),
            speakers.len() + commands.len() == all.len(),
            forall|j: int|
                0 <= j < commands.len() ==> (#[trigger] commands[j])@ == info_calls(all)[all.len()
                    - 1 - j],
        decreases speakers.len(),
    {
        let ghost n = speakers.len();
        let speaker = speakers.pop().unwrap();
        assert(speaker == all[n - 1]);
        assert(speakers@ =~= all.take(n - 1));
        let call = api::SpeakerInfo {
            speaker_uuid: speaker.speaker_uuid.clone(),
            core_version: None,
        };
        commands.push(Command::Call(APICall::SpeakerInfo(speaker, call)));
    }
    let mut out: Vec<Command> = Vec::new();
    while commands.len() > 0
        invariant
            commands.len() + out.len() == all.len(),
            forall|j: int|
                0 <= j < commands.len() ==> (#[trigger] commands[j])@ == info_calls(all)[all.len()
                    - 1 - j],
            forall|j: int| 0 <= j < out.len() ==> (#[trigger] out[j])@ == info_calls(all)[j],
        decreases commands.len(),
    {
        let command = commands.pop().unwrap();
        out.push(command);
    }
    assert(seq_view(out@) =~= info_calls(all));
    out
}

impl State {
    /// Carries out a message, the two flags of saving left aside.
    fn step(&mut self, message: Message) -> (r: Vec<Command>)
        requires
            old(self)@.wf(),
            old(self)@.accepts(message),
        ensures
            steps(old(self)@, message, final(self)@, seq_view(r@)),
            final(self)@.wf(),
            final(self)@.dirty == old(self)@.dirty,
            final(self)@.saving == old(self)@.saving,
    {
        let mut commands: Vec<Command> = Vec::new();
        assert(seq_view(commands@) =~= Seq::<CommandView>::empty());
        match message {
            Message::FileMenuOpen(FileMenu::NewProject) => {
                let shown = self.persistence.tabs.len();
                self.open_tab(TabContext::default());
                self.persistence.viewing_tab = Some(shown);
            },
            Message::FileMenuOpen(FileMenu::LoadProject) => {
                commands.push(Command::PickProject);
                assert(seq_view(commands@) =~= seq![CommandView::PickProject]);
            },
            Message::SettingsMenuOpen(SettingsMenu::ToolbarConfig) => {
                self.opening_page = Page::ToolBarConfig;
                self.toolbar_ui_temp_config = self.persistence.tool_bar_config.clone();
            },
            Message::ToolBar(ToolBarKind::Undo) => {
                self.undo_shown();
            },
            Message::ToolBar(ToolBarKind::Redo) => {
                self.redo_shown();
            },
            Message::ToolBarConfig(m) => {
                self.configure(m);
            },
            Message::TabSelect(i) => {
                self.persistence.viewing_tab = Some(i);
            },
            Message::TabClose(i) => {
                let tab = self.close_tab(i);
                let ghost t = tab@;
                commands.push(Command::WriteProject(tab));
                assert(seq_view(commands@) =~= seq![CommandView::WriteProject(t)]);
            },
            Message::APIResult(APIResult::Speakers(Ok(speakers))) => {
                commands = ask_for_details(speakers);
            },
            Message::APIResult(APIResult::SpeakerInfo(speaker, Ok(info))) => {
                commands = self.take_character(speaker, info);
            },
            Message::APIResult(APIResult::MorpableTargets(id, Ok(targets))) => {
                self.take_targets(id, &targets[0]);
            },
            Message::QueryParameterCommit => {
                commands = self.commit_chosen();
            },
            Message::NewTab(tab) => {
                self.open_tab(tab);
            },
            Message::NewAudioCell => {
                self.add_cell();
            },
            other => {
                match edit_of(other) {
                    Ok(diff) => {
                        self.apply_edit(diff);
                    },
                    Err(_) => {},
                }
            },
        }
        commands
    }

    /// Carries out a message, and says what has to be done outside.
    ///
    /// First the menu of characters is brought up to date. Then the message
    /// is carried out: see [`steps`]. Last, a save is asked for where there
    /// is something to save and no save is under way; every message but the
    /// report of a save leaves something to save.
    pub fn update(&mut self, message: Message) -> (r: Vec<Command>)
        requires
            old(self)@.wf(),
            old(self)@.accepts(message),
        ensures
            final(self)@.wf(),
            in_key_order(old(self)@.portrait_and_names) ==> in_key_order(
                final(self)@.portrait_and_names,
            ),
            ({
                let pre = old(self)@.refreshed();
                let saved = message.is_saved();
                let asks = pre.asks_to_save(saved);
                let commands = if asks {
                    seq_view(r@).drop_last()
                } else {
                    seq_view(r@)
                };
                &&& asks ==> r@.len() > 0 && seq_view(r@) == commands.push(CommandView::Save)
                &&& steps(
                    pre,
                    message,
                    StateView { dirty: pre.dirty, saving: pre.saving, ..final(self)@ },
                    commands,
                )
                &&& final(self)@.dirty == pre.settled(saved).dirty
                &&& final(self)@.saving == pre.settled(saved).saving
            }),
    {
        self.refresh_menu();
        let saved = match &message {
            Message::Saved(Ok(_)) => true,
            _ => false,
        };
        let mut commands = self.step(message);
        let ghost stepped = self@;
        let ghost asked = seq_view(commands@);
        if saved {
            self.saving = false;
        } else {
            self.dirty = true;
        }
        if self.dirty && !self.saving {
            self.dirty = false;
            self.saving = true;
            proof {
                crate::views::lemma_seq_view_push(commands@, Command::Save);
                assert(asked.push(CommandView::Save).drop_last() =~= asked);
            }
            commands.push(Command::Save);
            assert(seq_view(commands@) == asked.push(CommandView::Save));
        }
        proof {
            let pre = old(self)@.refreshed();
            assert((StateView { dirty: pre.dirty, saving: pre.saving, ..self@ }) == stepped);
            if in_key_order(old(self)@.portrait_and_names) {
                lemma_characters_stay_in_order(pre, message, stepped, asked);
            }
        }
        commands
    }
}

/// The editor: waiting for what it remembers, or started.
#[derive(Debug)]
pub enum VoiceVox {
    Loading,
    Loaded(State),
}

/// The title of the window while the editor waits.
pub open spec fn loading_title() -> Seq<char> {
    "Loading"@
}

/// The title of the window once the editor has started, given the file name
/// of the tab that is shown, if there is one.
pub open spec fn loaded_title(file_name: Option<Seq<char>>) -> Seq<char> {
    "Voiced - "@ + (match file_name {
        Some(name) => name,
        None => Seq::empty(),
    })
}

impl VoiceVox {
    /// The editor as it starts: waiting, and asking for what it remembers.
    pub fn new() -> (r: (VoiceVox, Command))
        ensures
            r.0 == VoiceVox::Loading,
            r.1@ == CommandView::Load,
    {
        (VoiceVox::Loading, Command::Load)
    }

    /// The title of the window: that the editor waits, or else the name of
    /// the program with the file name of the tab that is shown.
    pub fn title(&self) -> (r: String)
        ensures
            r@ == (match self {
                VoiceVox::Loading => loading_title(),
                VoiceVox::Loaded(state) => loaded_title(state@.persistence.tab_file_name()),
            }),
    {
        match self {
            VoiceVox::Loading => "Loading".to_owned(),
            VoiceVox::Loaded(state) => {
                let mut title = "Voiced - ".to_owned();
                match state.persistence.get_tab_file_name() {
                    Some(name) => {
                        title.append(name);
                    },
                    None => {
                        assert(title@ + Seq::<char>::empty() =~= title@);
                    },
                }
                title
            },
        }
    }

    /// Whether the editor takes the message: while it waits it takes any,
    /// and once started see [`StateView::accepts`].
    pub open spec fn accepts(self, message: Message) -> bool {
        match self {
            VoiceVox::Loading => true,
            VoiceVox::Loaded(state) => state@.wf() && state@.accepts(message),
        }
    }

    /// Whether the editor takes the message.
    pub fn takes(&self, message: &Message) -> (r: bool)
        ensures
            r == self.accepts(*message),
    {
        match self {
            VoiceVox::Loading => true,
            VoiceVox::Loaded(state) => state.accepts(message),
        }
    }

    /// Carries out a message, and says what has to be done outside.
    ///
    /// While the editor waits: what it remembers starts it, and so does the
    /// failure to read it, from a state that remembers nothing; any other
    /// message leaves it waiting. Either way the characters are asked for.
    /// Once started: see [`State::update`].
    pub fn update(&mut self, message: Message) -> (r: Vec<Command>)
        requires
            old(self).accepts(message),
        ensures
            match *old(self) {
                VoiceVox::Loading => {
                    &&& seq_view(r@) == seq![CommandView::Call(APICallView::Speakers(None))]
                    &&& match message {
                        Message::Loaded(Ok(state)) => *final(self) matches VoiceVox::Loaded(s)
                            && s@ == StateView::initial(state@),
                        Message::Loaded(Err(_)) => *final(self) matches VoiceVox::Loaded(s) && s@
                            == StateView::initial(
                            VoiceVoxStateView {
                                tool_bar_config: default_tools(),
                                viewing_tab: None,
                                tabs: Seq::empty(),
                            },
                        ),
                        _ => *final(self) == VoiceVox::Loading,
                    }
                },
                VoiceVox::Loaded(before) => *final(self) matches VoiceVox::Loaded(after) && ({
                    let pre = before@.refreshed();
                    let saved = message.is_saved();
                    let asks = pre.asks_to_save(saved);
                    let commands = if asks {
                        seq_view(r@).drop_last()
                    } else {
                        seq_view(r@)
                    };
                    &&& asks ==> r@.len() > 0 && seq_view(r@) == commands.push(CommandView::Save)
                    &&& steps(
                        pre,
                        message,
                        StateView { dirty: pre.dirty, saving: pre.saving, ..after@ },
                        commands,
                    )
                    &&& after@.dirty == pre.settled(saved).dirty
                    &&& after@.saving == pre.settled(saved).saving
                }),
            },
            *final(self) matches VoiceVox::Loaded(s) ==> s@.wf(),
    {
        match self {
            VoiceVox::Loading => {
                match message {
                    Message::Loaded(Ok(state)) => {
                        *self = VoiceVox::Loaded(State::new(state));
                    },
                    Message::Loaded(Err(_)) => {
                        let state = VoiceVoxState::default();
                        assert(state@.tabs =~= Seq::<TabView>::empty());
                        *self = VoiceVox::Loaded(State::new(state));
                    },
                    _ => {},
                }
                let mut commands: Vec<Command> = Vec::new();
                commands.push(Command::Call(APICall::Speakers(api::Speakers { core_version: None })));
                assert(seq_view(commands@) =~= seq![
                    CommandView::Call(APICallView::Speakers(None)),
                ]);
                commands
            },
            VoiceVox::Loaded(state) => state.update(message),
        }
    }
}

/// The characters are kept in the order of their keys, each key once: they
/// start so, and no message changes that.
pub proof fn lemma_characters_stay_in_order(
    pre: StateView,
    message: Message,
    post: StateView,
    commands: Seq<CommandView>,
)
    requires
        steps(pre, message, post, commands),
        in_key_order(pre.portrait_and_names),
    ensures
        in_key_order(post.portrait_and_names),
        in_key_order(pre.refreshed().portrait_and_names),
        forall|persistence: VoiceVoxStateView|
            in_key_order(#[trigger] StateView::initial(persistence).portrait_and_names),
{
    match message {
        Message::APIResult(APIResult::SpeakerInfo(speaker, Ok(info))) => {
            lemma_placed_in_order(
                pre.portrait_and_names,
                PortraitView {
                    speaker_uuid: speaker.speaker_uuid@,
                    portrait: info.portrait@,
                    name: speaker.name@,
                    style_ids: style_ids(speaker.styles@),
                },
            );
        },
        _ => {},
    }
}

/// Every tab keeps its history: a message that the editor takes leaves as
/// many histories as tabs.
pub proof fn lemma_tabs_keep_histories(
    pre: StateView,
    message: Message,
    post: StateView,
    commands: Seq<CommandView>,
)
    requires
        steps(pre, message, post, commands),
        pre.wf(),
        pre.accepts(message),
    ensures
        post.wf(),
{
}

} // verus!
