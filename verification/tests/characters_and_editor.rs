use std::collections::BTreeSet;
use voice_vox::api;
use voice_vox::api::APIError;
use voice_vox::api_schema::{
    MorphableTargetInfo, Speaker, SpeakerInfo, SpeakerStyle,
    SpeakerSupportPermittedSynthesisMorphing, SpeakerSupportedFeatures, StyleInfo,
};
use voice_vox::characters::{
    build_character_change_menu, enter_styles, is_bytes_before, is_text_before, morphable_ids,
    place, portrait_of, CharacterOption, Portrait, StyleEntry, StyleOption, StyleTable,
};
use voice_vox::editor::{
    edit_of, APICall, APIResult, Command, Diagnostic, Message, State, VoiceVox,
};
use voice_vox::history::Diff;
use voice_vox::menu::{FileMenu, Page, SettingsMenu};
use voice_vox::project::{Field, Value};
use voice_vox::scalar::Scalar;
use voice_vox::state::{LoadError, SaveError, TabContext, VoiceVoxState};
use voice_vox::toolbar::ToolBarKind::{Blank, ContinuosPlay, ExportSelected, LoadText, Redo, Undo};
use voice_vox::toolbar::{ConfigureMessage, ToolBarConfig, ToolBarKind};

fn num(x: f64) -> Scalar {
    Scalar::from_bits(x.to_bits())
}

fn speaker(uuid: &str, name: &str, styles: &[(i32, &str)]) -> Speaker {
    Speaker {
        supported_features: SpeakerSupportedFeatures {
            permitted_synthesis_morphing: SpeakerSupportPermittedSynthesisMorphing::ALL,
        },
        name: name.to_string(),
        speaker_uuid: uuid.to_string(),
        styles: styles.iter().map(|(id, n)| SpeakerStyle { name: n.to_string(), id: *id }).collect(),
        version: None,
    }
}

fn info(portrait: &[u8], icons: &[(i32, &[u8])]) -> SpeakerInfo {
    SpeakerInfo {
        policy: String::new(),
        portrait: portrait.to_vec(),
        style_infos: icons
            .iter()
            .map(|(id, icon)| StyleInfo { id: *id, icon: icon.to_vec(), voice_samples: vec![] })
            .collect(),
    }
}

#[test]
fn texts_are_ordered_by_their_bytes() {
    let cases = ["", "a", "ab", "b", "ba", "A", "é", "あ", "z", "aa", "\u{10000}"];
    for a in cases {
        for b in cases {
            assert_eq!(is_text_before(&a.to_string(), &b.to_string()), a < b, "{a:?} {b:?}");
            assert_eq!(is_bytes_before(a.as_bytes(), b.as_bytes()), a.as_bytes() < b.as_bytes());
        }
    }
    assert!(is_bytes_before(&[1, 2], &[1, 3]));
    assert!(is_bytes_before(&[1], &[1, 0]));
    assert!(!is_bytes_before(&[1, 0], &[1]));
    assert!(!is_bytes_before(&[200], &[100, 255]));
}

fn portrait(uuid: &str, name: &str) -> Portrait {
    Portrait {
        speaker_uuid: uuid.to_string(),
        portrait: vec![],
        name: name.to_string(),
        style_ids: vec![],
    }
}

#[test]
fn characters_are_kept_in_key_order() {
    let mut characters = Vec::new();
    for (uuid, name) in [("m", "1"), ("c", "2"), ("x", "3"), ("a", "4"), ("n", "5")] {
        place(&mut characters, portrait(uuid, name));
    }
    let keys: Vec<&str> = characters.iter().map(|c| c.speaker_uuid.as_str()).collect();
    assert_eq!(keys, vec!["a", "c", "m", "n", "x"]);
    place(&mut characters, portrait("m", "again"));
    let names: Vec<&str> = characters.iter().map(|c| c.name.as_str()).collect();
    assert_eq!(names, vec!["4", "2", "again", "5", "3"]);
}

#[test]
fn styles_are_entered_where_details_bear_their_number() {
    let mut table = StyleTable::new();
    let s = speaker("u", "n", &[(1, "normal"), (2, "happy"), (3, "sad")]);
    let i = info(b"p", &[(3, b"i3"), (1, b"i1"), (1, b"again")]);
    enter_styles(&mut table, &s, &i);
    assert_eq!(table.len(), 2);
    assert_eq!(
        table.get(&1),
        Some(&StyleEntry {
            speaker_uuid: "u".to_string(),
            style_name: "normal".to_string(),
            icon: b"i1".to_vec()
        })
    );
    assert_eq!(table.get(&2), None);
    assert_eq!(table.get(&3).unwrap().style_name, "sad");
    let other = speaker("v", "m", &[(3, "angry")]);
    enter_styles(&mut table, &other, &info(b"q", &[(3, b"new")]));
    assert_eq!(table.get(&3).unwrap().speaker_uuid, "v");
    assert_eq!(table.get(&3).unwrap().icon, b"new".to_vec());
    let p = portrait_of(&s, &i);
    assert_eq!(
        p,
        Portrait {
            speaker_uuid: "u".to_string(),
            portrait: b"p".to_vec(),
            name: "n".to_string(),
            style_ids: vec![1, 2, 3]
        }
    );
}

#[test]
fn menu_lists_known_styles_of_each_character() {
    let mut table = StyleTable::new();
    let a = speaker("b-key", "Beta", &[(7, "calm"), (8, "loud")]);
    let b = speaker("a-key", "Alpha", &[(1, "plain")]);
    let ia = info(b"pa", &[(7, b"i7")]);
    let ib = info(b"pb", &[(1, b"i1")]);
    let mut characters = Vec::new();
    place(&mut characters, portrait_of(&a, &ia));
    place(&mut characters, portrait_of(&b, &ib));
    enter_styles(&mut table, &a, &ia);
    enter_styles(&mut table, &b, &ib);
    assert_eq!(
        build_character_change_menu(&characters, &table),
        vec![
            CharacterOption {
                name: "Alpha".to_string(),
                styles: vec![StyleOption {
                    icon: b"i1".to_vec(),
                    style_name: "plain".to_string(),
                    style_id: 1
                }]
            },
            CharacterOption {
                name: "Beta".to_string(),
                styles: vec![StyleOption {
                    icon: b"i7".to_vec(),
                    style_name: "calm".to_string(),
                    style_id: 7
                }]
            },
        ]
    );
}

#[test]
fn morphable_ids_are_those_marked() {
    let t = |id: i32, m: bool| (id, MorphableTargetInfo { is_morphable: m });
    let ids = morphable_ids(&vec![t(3, true), t(1, false), t(2, true), t(3, false), t(5, true)]);
    assert_eq!(ids, BTreeSet::from([2, 3, 5]));
    assert_eq!(morphable_ids(&vec![]), BTreeSet::new());
}

fn started_with_one_tab() -> State {
    let mut persistence = VoiceVoxState::default();
    persistence.tabs.push(TabContext::default());
    persistence.viewing_tab = Some(0);
    State::new(persistence)
}

fn key_of(state: &State) -> String {
    state.persistence().tabs[0].project.audio_keys()[0].clone()
}

fn send(state: &mut State, message: Message) -> Vec<Command> {
    assert!(state.accepts(&message), "{message:?}");
    state.update(message)
}

fn is_save(c: &Command) -> bool {
    matches!(c, Command::Save)
}

#[test]
fn editor_starts_when_its_state_arrives() {
    let (mut editor, first) = VoiceVox::new();
    assert!(matches!(first, Command::Load));
    assert_eq!(editor.title(), "Loading");
    let commands = editor.update(Message::HelpMenuOpen);
    assert!(matches!(editor, VoiceVox::Loading));
    assert_eq!(commands.len(), 1);
    match &commands[0] {
        Command::Call(APICall::Speakers(call)) => assert_eq!(call.core_version, None),
        other => panic!("{other:?}"),
    }
    let commands = editor.update(Message::Loaded(Err(LoadError::File)));
    assert_eq!(commands.len(), 1);
    match &editor {
        VoiceVox::Loaded(state) => {
            assert!(state.persistence().tabs.is_empty());
            assert!(state.tracking_buffer().is_empty());
            assert!(!state.dirty());
            assert!(!state.saving());
            assert_eq!(state.opening_page(), Page::Main);
        }
        other => panic!("{other:?}"),
    }
    assert_eq!(editor.title(), "Voiced - ");

    let (mut editor, _) = VoiceVox::new();
    let mut persistence = VoiceVoxState::default();
    let mut tab = TabContext::default();
    tab.file_name = "talk.vvproj".to_string();
    persistence.tabs.push(tab);
    persistence.tabs.push(TabContext::default());
    editor.update(Message::Loaded(Ok(persistence)));
    match &editor {
        VoiceVox::Loaded(state) => {
            assert_eq!(state.persistence().tabs.len(), 2);
            assert_eq!(state.tracking_buffer().len(), 2);
        }
        other => panic!("{other:?}"),
    }
    assert_eq!(editor.title(), "Voiced - talk.vvproj");
    assert!(editor.takes(&Message::TabClose(1)));
    assert!(!editor.takes(&Message::TabClose(2)));
}

#[test]
fn every_message_but_a_save_report_asks_to_save_once() {
    let mut state = started_with_one_tab();
    let commands = send(&mut state, Message::HelpMenuOpen);
    assert_eq!(commands.len(), 1);
    assert!(is_save(&commands[0]));
    assert!(state.saving());
    assert!(!state.dirty());
    // while the save is under way nothing more is asked
    let commands = send(&mut state, Message::TabSelect(0));
    assert!(commands.is_empty());
    assert!(state.saving());
    assert!(state.dirty());
    // the report of the save starts the next one, as something changed meanwhile
    let commands = send(&mut state, Message::Saved(Ok(())));
    assert_eq!(commands.len(), 1);
    assert!(is_save(&commands[0]));
    assert!(state.saving());
    assert!(!state.dirty());
    // and with nothing changed it ends the saving
    let commands = send(&mut state, Message::Saved(Ok(())));
    assert!(commands.is_empty());
    assert!(!state.saving());
    assert!(!state.dirty());
    // a failed save leaves something to save
    let commands = send(&mut state, Message::Saved(Err(SaveError::Write)));
    assert_eq!(commands.len(), 1);
}

#[test]
fn edits_go_to_the_shown_tab_and_can_be_undone() {
    let mut state = started_with_one_tab();
    let key = key_of(&state);
    send(&mut state, Message::PitchChange(key.clone(), num(0.01)));
    send(&mut state, Message::PitchChange(key.clone(), num(0.05)));
    send(&mut state, Message::PitchChange(key.clone(), num(0.10)));
    assert_eq!(state.tracking_buffer()[0].pending_buffer().len(), 3);
    send(&mut state, Message::QueryParameterCommit);
    assert_eq!(
        state.tracking_buffer()[0].undo_stack(),
        &vec![Diff::Pitch { audio_item_key: key.clone(), before: num(0.0), after: num(0.10) }]
    );
    let pitch = |s: &State| s.persistence().tabs[0].project.field(&key, Field::Pitch);
    assert_eq!(pitch(&state), Some(Value::Number(num(0.10))));
    send(&mut state, Message::ToolBar(ToolBarKind::Undo));
    assert_eq!(pitch(&state), Some(Value::Number(num(0.0))));
    send(&mut state, Message::ToolBar(ToolBarKind::Redo));
    assert_eq!(pitch(&state), Some(Value::Number(num(0.10))));
    send(&mut state, Message::EditText(key.clone(), "こんにちは".to_string()));
    send(&mut state, Message::CharacterChange(key.clone(), 4));
    send(&mut state, Message::SpeedChange(key.clone(), num(1.5)));
    let project = &state.persistence().tabs[0].project;
    assert_eq!(project.get(&key).unwrap().text, "こんにちは");
    assert_eq!(project.get(&key).unwrap().style_id, 4);
    assert_eq!(project.field(&key, Field::Speed), Some(Value::Number(num(1.5))));
    assert_eq!(state.tracking_buffer()[0].redo_stack().len(), 0);
    assert_eq!(state.tracking_buffer()[0].pending_buffer().len(), 3);
    let commands = send(&mut state, Message::QueryParameterCommit);
    assert_eq!(
        commands[0],
        Command::Report(Diagnostic::NotSquashed(
            Diff::Text {
                audio_item_key: key.clone(),
                before: String::new(),
                after: "こんにちは".to_string()
            },
            Diff::Speed { audio_item_key: key.clone(), before: num(1.0), after: num(1.5) },
        ))
    );
    assert_eq!(state.tracking_buffer()[0].pending_buffer().len(), 0);
    assert_eq!(state.tracking_buffer()[0].undo_stack().len(), 4);
    let commands = send(&mut state, Message::QueryParameterCommit);
    assert_eq!(commands[0], Command::Report(Diagnostic::NothingToCommit));
    assert_eq!(state.tracking_buffer()[0].undo_stack().len(), 4);
}

#[test]
fn edits_without_a_shown_tab_change_nothing() {
    let mut state = State::new(VoiceVoxState::default());
    send(&mut state, Message::EditText("k".to_string(), "t".to_string()));
    send(&mut state, Message::ToolBar(ToolBarKind::Undo));
    send(&mut state, Message::QueryParameterCommit);
    send(&mut state, Message::NewAudioCell);
    assert!(state.persistence().tabs.is_empty());
    let mut state = started_with_one_tab();
    send(&mut state, Message::TabSelect(5));
    assert_eq!(state.shown_tab(), None);
    let key = key_of(&state);
    send(&mut state, Message::EditText(key.clone(), "t".to_string()));
    assert_eq!(state.persistence().tabs[0].project.get(&key).unwrap().text, "");
    assert!(!state.accepts(&Message::QueryParameterCommit));
}

#[test]
fn tabs_open_and_close_with_their_histories() {
    let mut state = State::new(VoiceVoxState::default());
    let commands = send(&mut state, Message::FileMenuOpen(FileMenu::NewProject));
    assert_eq!(commands.len(), 1);
    assert!(is_save(&commands[0]));
    assert_eq!(state.persistence().tabs.len(), 1);
    assert_eq!(state.persistence().viewing_tab, Some(0));
    assert_eq!(state.tracking_buffer().len(), 1);
    assert_eq!(state.persistence().tabs[0].file_name, "unnamed");
    let mut tab = TabContext::default();
    tab.file_name = "opened.vvproj".to_string();
    send(&mut state, Message::NewTab(tab));
    assert_eq!(state.persistence().tabs.len(), 2);
    assert_eq!(state.persistence().viewing_tab, Some(0));
    send(&mut state, Message::Saved(Ok(())));
    send(&mut state, Message::Saved(Ok(())));
    let commands = send(&mut state, Message::TabClose(0));
    assert_eq!(commands.len(), 2);
    match &commands[0] {
        Command::WriteProject(tab) => assert_eq!(tab.file_name, "unnamed"),
        other => panic!("{other:?}"),
    }
    assert!(is_save(&commands[1]));
    assert_eq!(state.persistence().tabs.len(), 1);
    assert_eq!(state.persistence().tabs[0].file_name, "opened.vvproj");
    assert_eq!(state.tracking_buffer().len(), 1);
    assert!(!state.accepts(&Message::TabClose(1)));
    let commands = send(&mut state, Message::FileMenuOpen(FileMenu::LoadProject));
    assert!(matches!(commands[0], Command::PickProject));
    send(&mut state, Message::NewAudioCell);
    assert_eq!(state.persistence().tabs[0].project.audio_keys().len(), 2);
}

#[test]
fn unfinished_entries_are_not_taken() {
    let state = started_with_one_tab();
    for entry in [
        FileMenu::ExportAll,
        FileMenu::ExportSelected,
        FileMenu::ExportConnected,
        FileMenu::ExportTextConnected,
        FileMenu::ImportText,
        FileMenu::SaveProject,
        FileMenu::SaveProjectAs,
    ] {
        assert!(!state.accepts(&Message::FileMenuOpen(entry)));
    }
    for entry in [
        SettingsMenu::KeyConfig,
        SettingsMenu::ReorderCharacter,
        SettingsMenu::DefaultStyle,
        SettingsMenu::Dictionary,
        SettingsMenu::Option,
    ] {
        assert!(!state.accepts(&Message::SettingsMenuOpen(entry)));
    }
    for kind in ToolBarKind::enumerate() {
        let taken = kind == ToolBarKind::Undo || kind == ToolBarKind::Redo;
        assert_eq!(state.accepts(&Message::ToolBar(kind)), taken);
    }
    assert!(!state.accepts(&Message::APIResult(APIResult::MorpableTargets(1, Ok(vec![])))));
    assert!(state.accepts(&Message::APIResult(APIResult::MorpableTargets(
        1,
        Err(APIError::Unknown)
    ))));
}

#[test]
fn tool_bar_is_arranged_on_a_copy_until_saved() {
    let mut state = started_with_one_tab();
    send(&mut state, Message::SettingsMenuOpen(SettingsMenu::ToolbarConfig));
    assert_eq!(state.opening_page(), Page::ToolBarConfig);
    assert_eq!(state.toolbar_ui_temp_config().tools(), ToolBarConfig::default().tools());
    send(&mut state, Message::ToolBarConfig(ConfigureMessage::Toggle(ToolBarKind::Stop, false)));
    send(&mut state, Message::ToolBarConfig(ConfigureMessage::Toggle(ToolBarKind::LoadText, true)));
    send(&mut state, Message::ToolBarConfig(ConfigureMessage::Select(ToolBarKind::Undo)));
    assert_eq!(state.configure_ui_selected_tool(), ToolBarKind::Undo);
    send(&mut state, Message::ToolBarConfig(ConfigureMessage::MoveLeft));
    send(&mut state, Message::ToolBarConfig(ConfigureMessage::Select(ToolBarKind::ContinuosPlay)));
    send(&mut state, Message::ToolBarConfig(ConfigureMessage::MoveRight));
    assert_eq!(
        state.toolbar_ui_temp_config().tools(),
        &vec![ExportSelected, ContinuosPlay, Undo, Blank, Redo, LoadText]
    );
    assert_eq!(state.persistence().tool_bar_config.tools(), ToolBarConfig::default().tools());
    send(&mut state, Message::ToolBarConfig(ConfigureMessage::Select(ToolBarKind::Blank)));
    send(&mut state, Message::ToolBarConfig(ConfigureMessage::Remove));
    send(&mut state, Message::ToolBarConfig(ConfigureMessage::Save));
    assert_eq!(
        state.persistence().tool_bar_config.tools(),
        &vec![ExportSelected, ContinuosPlay, Undo, Redo, LoadText]
    );
    send(&mut state, Message::ToolBarConfig(ConfigureMessage::RestoreDefault));
    assert_eq!(state.toolbar_ui_temp_config().tools(), ToolBarConfig::default().tools());
    send(&mut state, Message::ToolBarConfig(ConfigureMessage::Exit));
    assert_eq!(state.opening_page(), Page::Main);
}

#[test]
fn engine_answers_fill_the_tables_and_the_menu() {
    let mut state = started_with_one_tab();
    let a = speaker("b-key", "Beta", &[(7, "calm"), (8, "loud")]);
    let b = speaker("a-key", "Alpha", &[(1, "plain")]);
    let commands =
        send(&mut state, Message::APIResult(APIResult::Speakers(Ok(vec![a.clone(), b.clone()]))));
    assert_eq!(commands.len(), 3);
    match (&commands[0], &commands[1]) {
        (
            Command::Call(APICall::SpeakerInfo(s0, c0)),
            Command::Call(APICall::SpeakerInfo(s1, c1)),
        ) => {
            assert_eq!(s0, &a);
            assert_eq!(c0, &api::SpeakerInfo { speaker_uuid: "b-key".to_string(), core_version: None });
            assert_eq!(s1, &b);
            assert_eq!(c1.speaker_uuid, "a-key");
        }
        other => panic!("{other:?}"),
    }
    assert!(is_save(&commands[2]));
    let commands = send(
        &mut state,
        Message::APIResult(APIResult::SpeakerInfo(a.clone(), Ok(info(b"pa", &[(7, b"i7")])))),
    );
    assert_eq!(commands.len(), 2);
    match (&commands[0], &commands[1]) {
        (
            Command::Call(APICall::MorpableTargets(7, c0)),
            Command::Call(APICall::MorpableTargets(8, c1)),
        ) => {
            assert_eq!(c0, &api::MorpableTargets { style_id: vec![7], core_version: None });
            assert_eq!(c1.style_id, vec![8]);
        }
        other => panic!("{other:?}"),
    }
    assert!(state.character_change_menu().is_empty());
    send(
        &mut state,
        Message::APIResult(APIResult::SpeakerInfo(b.clone(), Ok(info(b"pb", &[(1, b"i1")])))),
    );
    let names: Vec<&str> = state.portrait_and_names().iter().map(|p| p.name.as_str()).collect();
    assert_eq!(names, vec!["Alpha", "Beta"]);
    assert_eq!(state.style_id_uuid_table().len(), 2);
    // the menu is one message behind the tables
    let menu: Vec<&str> = state.character_change_menu().iter().map(|c| c.name.as_str()).collect();
    assert_eq!(menu, vec!["Beta"]);
    send(&mut state, Message::HelpMenuOpen);
    let menu: Vec<&str> = state.character_change_menu().iter().map(|c| c.name.as_str()).collect();
    assert_eq!(menu, vec!["Alpha", "Beta"]);
    assert_eq!(state.character_change_menu()[1].styles.len(), 1);
    let t = |id: i32, m: bool| (id, MorphableTargetInfo { is_morphable: m });
    send(
        &mut state,
        Message::APIResult(APIResult::MorpableTargets(
            7,
            Ok(vec![vec![t(1, true), t(8, false)], vec![t(9, true)]]),
        )),
    );
    assert_eq!(state.morphable_targets().get(&7), Some(&BTreeSet::from([1])));
    send(&mut state, Message::APIResult(APIResult::Speakers(Err(APIError::Unknown))));
    send(
        &mut state,
        Message::APIResult(APIResult::SpeakerInfo(a, Err(APIError::Io))),
    );
    assert_eq!(state.portrait_and_names().len(), 2);
}

#[test]
fn messages_name_their_edits() {
    assert_eq!(
        edit_of(Message::EditText("k".to_string(), "t".to_string())).ok(),
        Some(Diff::Text { audio_item_key: "k".to_string(), before: String::new(), after: "t".to_string() })
    );
    let k = || "k".to_string();
    let v = num(0.3);
    let z = num(0.0);
    assert_eq!(
        edit_of(Message::SpeedChange(k(), v)).ok(),
        Some(Diff::Speed { audio_item_key: k(), before: z, after: v })
    );
    assert_eq!(
        edit_of(Message::PitchChange(k(), v)).ok(),
        Some(Diff::Pitch { audio_item_key: k(), before: z, after: v })
    );
    assert_eq!(
        edit_of(Message::IntonationChange(k(), v)).ok(),
        Some(Diff::Intonation { audio_item_key: k(), before: z, after: v })
    );
    assert_eq!(
        edit_of(Message::VolumeChange(k(), v)).ok(),
        Some(Diff::Volume { audio_item_key: k(), before: z, after: v })
    );
    assert_eq!(
        edit_of(Message::PrePhonemeLengthChange(k(), v)).ok(),
        Some(Diff::PrePhonemeLength { audio_item_key: k(), before: z, after: v })
    );
    assert_eq!(
        edit_of(Message::PostPhonemeLengthChange(k(), v)).ok(),
        Some(Diff::PostPhonemeLength { audio_item_key: k(), before: z, after: v })
    );
    assert_eq!(
        edit_of(Message::CharacterChange(k(), 3)).ok(),
        Some(Diff::CharacterChange { audio_item_key: k(), before: 0, after: 3 })
    );
    assert!(edit_of(Message::HelpMenuOpen).is_err());
    assert!(edit_of(Message::TabSelect(1)).is_err());
}
