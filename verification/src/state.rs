//! What the editor remembers between runs: the tool bar and the open tabs.

use vstd::prelude::*;
use crate::project::{ProjectView, VoiceVoxProject};
use crate::toolbar::{default_tools, ToolBarConfig, ToolBarKind};
use crate::views::seq_view;

verus! {

/// What a tab is.
pub struct TabView {
    pub file_name: Seq<char>,
    pub project: ProjectView,
    pub editing_line: usize,
}

/// One open project: the file it is kept in, the project, and the place in
/// the playback order of the line that is being edited.
#[derive(Debug, Clone, PartialEq)]
pub struct TabContext {
    pub file_name: String,
    pub project: VoiceVoxProject,
    pub editing_line: usize,
}

impl View for TabContext {
    type V = TabView;

    open spec fn view(&self) -> TabView {
        TabView {
            file_name: self.file_name@,
            project: self.project@,
            editing_line: self.editing_line,
        }
    }
}

/// The name of a tab whose project has not been saved.
pub open spec fn unnamed() -> Seq<char> {
    "unnamed"@
}

impl Default for TabContext {
    /// A tab with a new project, not saved yet.
    fn default() -> (r: TabContext)
        ensures
            r@.file_name == unnamed(),
            r@.editing_line == 0,
            r@.project.app_version == crate::project::app_version_text(),
            r@.project.audio_keys.len() == 1,
            r@.project.audio_items == Map::<
                Seq<char>,
                crate::project::AudioItemView,
            >::empty().insert(r@.project.audio_keys[0], crate::project::AudioItemView::initial()),
            r@.project.keys_resolve(),
    {
        TabContext {
            file_name: "unnamed".to_owned(),
            project: VoiceVoxProject::default(),
            editing_line: 0,
        }
    }
}

/// What the remembered state is.
pub struct VoiceVoxStateView {
    pub tool_bar_config: Seq<ToolBarKind>,
    pub viewing_tab: Option<usize>,
    pub tabs: Seq<TabView>,
}

impl VoiceVoxStateView {
    /// The place of the tab that is shown: the first tab where none was
    /// chosen.
    pub open spec fn shown(self) -> int {
        match self.viewing_tab {
            Some(i) => i as int,
            None => 0,
        }
    }

    /// The file name of the tab that is shown, or `None` where there is no
    /// tab at that place.
    pub open spec fn tab_file_name(self) -> Option<Seq<char>> {
        if self.shown() < self.tabs.len() {
            Some(self.tabs[self.shown()].file_name)
        } else {
            None
        }
    }
}

/// The state of the editor that is kept between runs.
#[derive(Debug, Clone, PartialEq)]
pub struct VoiceVoxState {
    pub tool_bar_config: ToolBarConfig,
    pub viewing_tab: Option<usize>,
    pub tabs: Vec<TabContext>,
}

impl View for VoiceVoxState {
    type V = VoiceVoxStateView;

    open spec fn view(&self) -> VoiceVoxStateView {
        VoiceVoxStateView {
            tool_bar_config: self.tool_bar_config@,
            viewing_tab: self.viewing_tab,
            tabs: seq_view(self.tabs@),
        }
    }
}

impl Default for VoiceVoxState {
    /// The state of an editor that runs for the first time: the tool bar as
    /// it comes, and no tab.
    fn default() -> (r: VoiceVoxState)
        ensures
            r@.tool_bar_config == default_tools(),
            r@.viewing_tab == None::<usize>,
            r@.tabs.len() == 0,
    {
        VoiceVoxState { tool_bar_config: ToolBarConfig::default(), viewing_tab: None, tabs: Vec::new() }
    }
}

impl VoiceVoxState {
    /// The file name of the tab that is shown, or `None` where there is no
    /// tab at that place. Where no tab was chosen, the first tab is shown.
    pub fn get_tab_file_name(&self) -> (r: Option<&str>)
        ensures
            match r {
                Some(name) => self@.tab_file_name() == Some(name@),
                None => self@.tab_file_name().is_none(),
            },
    {
        let shown = match self.viewing_tab {
            Some(i) => i,
            None => 0,
        };
        if shown < self.tabs.len() {
            Some(self.tabs[shown].file_name.as_str())
        } else {
            None
        }
    }
}

/// Why the remembered state could not be read.
#[derive(Clone, Copy, Debug, PartialEq, Eq, Structural)]
pub enum LoadError {
    File,
    Format,
}

/// Why the remembered state could not be written.
#[derive(Clone, Copy, Debug, PartialEq, Eq, Structural)]
pub enum SaveError {
    File,
    Write,
    Format,
}

} // verus!
