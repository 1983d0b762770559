//! The menus of the editor's top bar, its pages and its panes.

use vstd::prelude::*;

verus! {

/// The entries of the file menu.
#[derive(Clone, Copy, Debug, PartialEq, Eq, Structural)]
pub enum FileMenu {
    ExportAll,
    ExportSelected,
    ExportConnected,
    ExportTextConnected,
    ImportText,
    NewProject,
    SaveProject,
    SaveProjectAs,
    LoadProject,
}

impl FileMenu {
    /// Every entry, from top to bottom.
    pub open spec fn all() -> Seq<FileMenu> {
        seq![
            FileMenu::ExportAll,
            FileMenu::ExportSelected,
            FileMenu::ExportConnected,
            FileMenu::ExportTextConnected,
            FileMenu::ImportText,
            FileMenu::NewProject,
            FileMenu::SaveProject,
            FileMenu::SaveProjectAs,
            FileMenu::LoadProject,
        ]
    }

    /// The caption of the entry.
    pub open spec fn label_text(self) -> Seq<char> {
        match self {
            FileMenu::ExportAll => "音声書き出し"@,
            FileMenu::ExportSelected => "一つだけ書き出し"@,
            FileMenu::ExportConnected => "音声を繋げて書き出し"@,
            FileMenu::ExportTextConnected => "テキストを繋げて書き出し"@,
            FileMenu::ImportText => "テキスト読み込み"@,
            FileMenu::NewProject => "新規プロジェクト"@,
            FileMenu::SaveProject => "プロジェクトを上書き保存"@,
            FileMenu::SaveProjectAs => "プロジェクトを名前を付けて保存"@,
            FileMenu::LoadProject => "プロジェクト読み込み"@,
        }
    }

    /// The caption of the entry.
    pub fn label(self) -> (r: &'static str)
        ensures
            r@ == self.label_text(),
    {
        match self {
            FileMenu::ExportAll => "音声書き出し",
            FileMenu::ExportSelected => "一つだけ書き出し",
            FileMenu::ExportConnected => "音声を繋げて書き出し",
            FileMenu::ExportTextConnected => "テキストを繋げて書き出し",
            FileMenu::ImportText => "テキスト読み込み",
            FileMenu::NewProject => "新規プロジェクト",
            FileMenu::SaveProject => "プロジェクトを上書き保存",
            FileMenu::SaveProjectAs => "プロジェクトを名前を付けて保存",
            FileMenu::LoadProject => "プロジェクト読み込み",
        }
    }

    /// Whether choosing the entry does anything yet: only a new project and
    /// the loading of a project do.
    pub open spec fn is_supported(self) -> bool {
        self == FileMenu::NewProject || self == FileMenu::LoadProject
    }
}

/// The entries of the file menu, from top to bottom.
pub fn enumerate_file_menu() -> (r: Vec<FileMenu>)
    ensures
        r@ == FileMenu::all(),
{
    let mut entries: Vec<FileMenu> = Vec::new();
    entries.push(FileMenu::ExportAll);
    entries.push(FileMenu::ExportSelected);
    entries.push(FileMenu::ExportConnected);
    entries.push(FileMenu::ExportTextConnected);
    entries.push(FileMenu::ImportText);
    entries.push(FileMenu::NewProject);
    entries.push(FileMenu::SaveProject);
    entries.push(FileMenu::SaveProjectAs);
    entries.push(FileMenu::LoadProject);
    assert(entries@ =~= FileMenu::all());
    entries
}

/// The entries of the engine menu.
#[derive(Clone, Copy, Debug, PartialEq, Eq, Structural)]
pub enum EngineMenu {
    Reboot,
}

impl EngineMenu {
    /// The caption of the entry.
    pub open spec fn label_text(self) -> Seq<char> {
        "再起動"@
    }

    /// The caption of the entry.
    pub fn label(self) -> (r: &'static str)
        ensures
            r@ == self.label_text(),
    {
        "再起動"
    }
}

/// The entries of the engine menu, from top to bottom.
pub fn enumerate_engine_menu() -> (r: Vec<EngineMenu>)
    ensures
        r@ == seq![EngineMenu::Reboot],
{
    let mut entries: Vec<EngineMenu> = Vec::new();
    entries.push(EngineMenu::Reboot);
    assert(entries@ =~= seq![EngineMenu::Reboot]);
    entries
}

/// The entries of the settings menu.
#[derive(Clone, Copy, Debug, PartialEq, Eq, Structural)]
pub enum SettingsMenu {
    KeyConfig,
    ToolbarConfig,
    ReorderCharacter,
    DefaultStyle,
    Dictionary,
    Option,
}

impl SettingsMenu {
    /// Every entry, from top to bottom.
    pub open spec fn all() -> Seq<SettingsMenu> {
        seq![
            SettingsMenu::KeyConfig,
            SettingsMenu::ToolbarConfig,
            SettingsMenu::ReorderCharacter,
            SettingsMenu::DefaultStyle,
            SettingsMenu::Dictionary,
            SettingsMenu::Option,
        ]
    }

    /// The caption of the entry.
    pub open spec fn label_text(self) -> Seq<char> {
        match self {
            SettingsMenu::KeyConfig => "キー割り当て"@,
            SettingsMenu::ToolbarConfig => "ツールバーのカスタマイズ"@,
            SettingsMenu::ReorderCharacter => "キャラクターの並び替え・試聴"@,
            SettingsMenu::DefaultStyle => "デフォルトスタイル"@,
            SettingsMenu::Dictionary => "読み方&アクセント辞典"@,
            SettingsMenu::Option => "オプション"@,
        }
    }

    /// The caption of the entry.
    pub fn label(self) -> (r: &'static str)
        ensures
            r@ == self.label_text(),
    {
        match self {
            SettingsMenu::KeyConfig => "キー割り当て",
            SettingsMenu::ToolbarConfig => "ツールバーのカスタマイズ",
            SettingsMenu::ReorderCharacter => "キャラクターの並び替え・試聴",
            SettingsMenu::DefaultStyle => "デフォルトスタイル",
            SettingsMenu::Dictionary => "読み方&アクセント辞典",
            SettingsMenu::Option => "オプション",
        }
    }

    /// Whether choosing the entry does anything yet: only the arranging of
    /// the tool bar does.
    pub open spec fn is_supported(self) -> bool {
        self == SettingsMenu::ToolbarConfig
    }
}

/// The entries of the settings menu, from top to bottom.
pub fn enumerate_settings_menu() -> (r: Vec<SettingsMenu>)
    ensures
        r@ == SettingsMenu::all(),
{
    let mut entries: Vec<SettingsMenu> = Vec::new();
    entries.push(SettingsMenu::KeyConfig);
    entries.push(SettingsMenu::ToolbarConfig);
    entries.push(SettingsMenu::ReorderCharacter);
    entries.push(SettingsMenu::DefaultStyle);
    entries.push(SettingsMenu::Dictionary);
    entries.push(SettingsMenu::Option);
    assert(entries@ =~= SettingsMenu::all());
    entries
}

/// The page that the window shows.
#[derive(Clone, Copy, Debug, PartialEq, Eq, Structural)]
pub enum Page {
    Main,
    ToolBarConfig,
    Help,
}

impl Default for Page {
    fn default() -> (r: Page)
        ensures
            r == Page::Main,
    {
        Page::Main
    }
}

/// The panes of a project tab.
#[derive(Clone, Copy, Debug, PartialEq, Eq, Structural)]
pub enum InTabPane {
    Character,
    Text,
    Parameter,
    Bottom,
    History,
}

/// What the bottom pane shows of the accent phrases.
#[derive(Clone, Copy, Debug, PartialEq, Eq, Structural)]
pub enum Displaying {
    Accent,
    Intonation,
    Length,
}

/// The side of a menu entry on which its submenu opens.
#[derive(Clone, Copy, Debug, PartialEq, Eq, Structural)]
pub enum ChildDirection {
    Right,
    Bottom,
}

} // verus!
