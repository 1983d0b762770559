use voice_vox::menu::{
    enumerate_engine_menu, enumerate_file_menu, enumerate_settings_menu, EngineMenu, FileMenu, Page,
    SettingsMenu,
};
use voice_vox::state::{TabContext, VoiceVoxState};
use voice_vox::toolbar::{ToolBarConfig, ToolBarKind, ToolButton};

use ToolBarKind::{
    Blank, ConnectExport, ContinuosPlay, ExportAll, ExportSelected, LoadText, Redo, SaveProject,
    Stop, Undo,
};

fn bar(tools: &[ToolBarKind]) -> ToolBarConfig {
    ToolBarConfig::from_tools(&tools.to_vec())
}

#[test]
fn default_tool_bar() {
    let config = ToolBarConfig::default();
    assert_eq!(config.tools(), &vec![ContinuosPlay, Stop, ExportSelected, Blank, Undo, Redo]);
    assert_eq!(ToolBarKind::default(), ContinuosPlay);
}

#[test]
fn every_tool_is_listed_once_and_named() {
    let all = ToolBarKind::enumerate();
    assert_eq!(
        all,
        vec![
            ContinuosPlay,
            Stop,
            ExportSelected,
            ExportAll,
            ConnectExport,
            SaveProject,
            Undo,
            Redo,
            LoadText,
            Blank
        ]
    );
    let names: Vec<&str> = all.iter().map(|k| k.tool_name()).collect();
    assert_eq!(
        names,
        vec![
            "連続再生",
            "停止",
            "1つ書き出し",
            "全部書き出し",
            "つなげて書き出し",
            "プロジェクトを保存",
            "元に戻す",
            "やり直す",
            "テキスト読み込み",
            "空白"
        ]
    );
    for kind in all {
        assert_eq!(kind.tooltip_text(), "");
    }
}

#[test]
fn insert_appends_even_a_tool_that_is_there() {
    let mut config = bar(&[Stop]);
    config.insert(Undo);
    config.insert(Stop);
    assert_eq!(config.tools(), &vec![Stop, Undo, Stop]);
    assert!(config.contains(Undo));
    assert!(!config.contains(Redo));
    assert_eq!(config.position(Stop), Some(0));
    assert_eq!(config.position(Redo), None);
}

#[test]
fn remove_takes_out_every_occurrence() {
    let mut config = bar(&[Stop, Undo, Stop, Redo, Stop]);
    config.remove(Stop);
    assert_eq!(config.tools(), &vec![Undo, Redo]);
    config.remove(Blank);
    assert_eq!(config.tools(), &vec![Undo, Redo]);
    config.remove(Undo);
    config.remove(Redo);
    assert!(config.tools().is_empty());
    config.remove(Redo);
    assert!(config.tools().is_empty());
}

#[test]
fn move_left_moves_the_first_occurrence() {
    let mut config = bar(&[Stop, Undo, Redo, Undo]);
    config.move_left(Undo);
    assert_eq!(config.tools(), &vec![Undo, Stop, Redo, Undo]);
    config.move_left(Undo);
    assert_eq!(config.tools(), &vec![Undo, Stop, Redo, Undo]);
    config.move_left(Blank);
    assert_eq!(config.tools(), &vec![Undo, Stop, Redo, Undo]);
    config.move_left(Redo);
    assert_eq!(config.tools(), &vec![Undo, Redo, Stop, Undo]);
}

#[test]
fn move_right_moves_the_first_occurrence() {
    let mut config = bar(&[Stop, Undo, Redo]);
    config.move_right(Stop);
    assert_eq!(config.tools(), &vec![Undo, Stop, Redo]);
    config.move_right(Stop);
    assert_eq!(config.tools(), &vec![Undo, Redo, Stop]);
    config.move_right(Stop);
    assert_eq!(config.tools(), &vec![Undo, Redo, Stop]);
    config.move_right(Blank);
    assert_eq!(config.tools(), &vec![Undo, Redo, Stop]);
    let mut empty = bar(&[]);
    empty.move_right(Stop);
    empty.move_left(Stop);
    assert!(empty.tools().is_empty());
    let mut twice = bar(&[Stop, Undo, Stop]);
    twice.move_right(Stop);
    assert_eq!(twice.tools(), &vec![Undo, Stop, Stop]);
}

#[test]
fn hints_open_left_after_the_first_blank() {
    let config = bar(&[Stop, Blank, Undo, Blank]);
    assert_eq!(
        config.custom_ui_buttons(),
        vec![
            ToolButton { kind: Stop, fills: false, hint_opens_left: false },
            ToolButton { kind: Blank, fills: true, hint_opens_left: false },
            ToolButton { kind: Undo, fills: false, hint_opens_left: true },
            ToolButton { kind: Blank, fills: true, hint_opens_left: true },
        ]
    );
    assert_eq!(config.clone().tools(), config.tools());
}

#[test]
fn menus_are_listed_in_order() {
    assert_eq!(
        enumerate_file_menu(),
        vec![
            FileMenu::ExportAll,
            FileMenu::ExportSelected,
            FileMenu::ExportConnected,
            FileMenu::ExportTextConnected,
            FileMenu::ImportText,
            FileMenu::NewProject,
            FileMenu::SaveProject,
            FileMenu::SaveProjectAs,
            FileMenu::LoadProject,
        ]
    );
    assert_eq!(enumerate_engine_menu(), vec![EngineMenu::Reboot]);
    assert_eq!(
        enumerate_settings_menu(),
        vec![
            SettingsMenu::KeyConfig,
            SettingsMenu::ToolbarConfig,
            SettingsMenu::ReorderCharacter,
            SettingsMenu::DefaultStyle,
            SettingsMenu::Dictionary,
            SettingsMenu::Option,
        ]
    );
    assert_eq!(Page::default(), Page::Main);
}

#[test]
fn menu_entries_have_their_captions() {
    let file: Vec<&str> = enumerate_file_menu().iter().map(|m| m.label()).collect();
    assert_eq!(
        file,
        vec![
            "音声書き出し",
            "一つだけ書き出し",
            "音声を繋げて書き出し",
            "テキストを繋げて書き出し",
            "テキスト読み込み",
            "新規プロジェクト",
            "プロジェクトを上書き保存",
            "プロジェクトを名前を付けて保存",
            "プロジェクト読み込み",
        ]
    );
    assert_eq!(EngineMenu::Reboot.label(), "再起動");
    let settings: Vec<&str> = enumerate_settings_menu().iter().map(|m| m.label()).collect();
    assert_eq!(
        settings,
        vec![
            "キー割り当て",
            "ツールバーのカスタマイズ",
            "キャラクターの並び替え・試聴",
            "デフォルトスタイル",
            "読み方&アクセント辞典",
            "オプション",
        ]
    );
}

#[test]
fn tab_file_name_of_the_shown_tab() {
    let mut state = VoiceVoxState::default();
    assert_eq!(state.get_tab_file_name(), None);
    assert_eq!(state.viewing_tab, None);
    assert!(state.tabs.is_empty());
    assert_eq!(state.tool_bar_config.tools(), ToolBarConfig::default().tools());
    let mut first = TabContext::default();
    assert_eq!(first.file_name, "unnamed");
    assert_eq!(first.editing_line, 0);
    assert_eq!(first.project.audio_keys().len(), 1);
    first.file_name = "a.vvproj".to_string();
    let mut second = TabContext::default();
    second.file_name = "b.vvproj".to_string();
    state.tabs.push(first);
    state.tabs.push(second);
    assert_eq!(state.get_tab_file_name(), Some("a.vvproj"));
    state.viewing_tab = Some(1);
    assert_eq!(state.get_tab_file_name(), Some("b.vvproj"));
    state.viewing_tab = Some(2);
    assert_eq!(state.get_tab_file_name(), None);
}
