//! The tool bar of the editor: which tools it shows, and in what order.

use vstd::prelude::*;

verus! {

/// A tool that the tool bar can show. `Blank` is the stretch of empty space
/// that pushes the tools after it to the right.
#[derive(Clone, Copy, Debug, PartialEq, Eq, Hash, Structural)]
pub enum ToolBarKind {
    ContinuosPlay,
    Stop,
    ExportSelected,
    ExportAll,
    ConnectExport,
    SaveProject,
    Undo,
    Redo,
    LoadText,
    Blank,
}

impl Default for ToolBarKind {
    fn default() -> (r: ToolBarKind)
        ensures
            r == ToolBarKind::ContinuosPlay,
    {
        ToolBarKind::ContinuosPlay
    }
}

impl ToolBarKind {
    /// Every tool, in the order in which the settings page lists them.
    pub open spec fn all() -> Seq<ToolBarKind> {
        seq![
            ToolBarKind::ContinuosPlay,
            ToolBarKind::Stop,
            ToolBarKind::ExportSelected,
            ToolBarKind::ExportAll,
            ToolBarKind::ConnectExport,
            ToolBarKind::SaveProject,
            ToolBarKind::Undo,
            ToolBarKind::Redo,
            ToolBarKind::LoadText,
            ToolBarKind::Blank,
        ]
    }

    /// The caption of the tool.
    pub open spec fn name_text(self) -> Seq<char> {
        match self {
            ToolBarKind::ContinuosPlay => "連続再生"@,
            ToolBarKind::Stop => "停止"@,
            ToolBarKind::ExportSelected => "1つ書き出し"@,
            ToolBarKind::ExportAll => "全部書き出し"@,
            ToolBarKind::ConnectExport => "つなげて書き出し"@,
            ToolBarKind::SaveProject => "プロジェクトを保存"@,
            ToolBarKind::Undo => "元に戻す"@,
            ToolBarKind::Redo => "やり直す"@,
            ToolBarKind::LoadText => "テキスト読み込み"@,
            ToolBarKind::Blank => "空白"@,
        }
    }

    /// Every tool, in the order in which the settings page lists them.
    pub fn enumerate() -> (r: Vec<ToolBarKind>)
        ensures
            r@ == ToolBarKind::all(),
    {
        let mut tools: Vec<ToolBarKind> = Vec::new();
        tools.push(ToolBarKind::ContinuosPlay);
        tools.push(ToolBarKind::Stop);
        tools.push(ToolBarKind::ExportSelected);
        tools.push(ToolBarKind::ExportAll);
        tools.push(ToolBarKind::ConnectExport);
        tools.push(ToolBarKind::SaveProject);
        tools.push(ToolBarKind::Undo);
        tools.push(ToolBarKind::Redo);
        tools.push(ToolBarKind::LoadText);
        tools.push(ToolBarKind::Blank);
        assert(tools@ =~= ToolBarKind::all());
        tools
    }

    /// The caption of the tool.
    pub fn tool_name(self) -> (r: &'static str)
        ensures
            r@ == self.name_text(),
    {
        match self {
            ToolBarKind::ContinuosPlay => "連続再生",
            ToolBarKind::Stop => "停止",
            ToolBarKind::ExportSelected => "1つ書き出し",
            ToolBarKind::ExportAll => "全部書き出し",
            ToolBarKind::ConnectExport => "つなげて書き出し",
            ToolBarKind::SaveProject => "プロジェクトを保存",
            ToolBarKind::Undo => "元に戻す",
            ToolBarKind::Redo => "やり直す",
            ToolBarKind::LoadText => "テキスト読み込み",
            ToolBarKind::Blank => "空白",
        }
    }

    /// The hint shown with the tool. No tool has one yet.
    pub fn tooltip_text(self) -> (r: &'static str)
        ensures
            r@ == ""@,
    {
        ""
    }
}

/// Whether `i` is the first place of `kind` in `tools`.
pub open spec fn first_place(tools: Seq<ToolBarKind>, kind: ToolBarKind, i: int) -> bool {
    &&& 0 <= i < tools.len()
    &&& tools[i] == kind
    &&& forall|j: int| 0 <= j < i ==> tools[j] != kind
}

/// `tools` with the tools at places `i` and `j` exchanged.
pub open spec fn exchanged(tools: Seq<ToolBarKind>, i: int, j: int) -> Seq<ToolBarKind> {
    tools.update(i, tools[j]).update(j, tools[i])
}

/// The test that every tool but `kind` passes.
pub open spec fn is_not(kind: ToolBarKind) -> spec_fn(ToolBarKind) -> bool {
    |k: ToolBarKind| k != kind
}

/// `tools` without any `kind`, the others in their order.
pub open spec fn without(tools: Seq<ToolBarKind>, kind: ToolBarKind) -> Seq<ToolBarKind> {
    tools.filter(is_not(kind))
}

/// `tools` after the first `kind` has moved one place to the left. Nothing
/// moves where `kind` is not among the tools or is the first of them.
pub open spec fn moved_left(tools: Seq<ToolBarKind>, kind: ToolBarKind) -> Seq<ToolBarKind> {
    if exists|i: int| first_place(tools, kind, i) {
        let i = choose|i: int| first_place(tools, kind, i);
        if i > 0 {
            exchanged(tools, i - 1, i)
        } else {
            tools
        }
    } else {
        tools
    }
}

/// `tools` after the first `kind` has moved one place to the right. Nothing
/// moves where `kind` is not among the tools or its first place is the last
/// place.
pub open spec fn moved_right(tools: Seq<ToolBarKind>, kind: ToolBarKind) -> Seq<ToolBarKind> {
    if exists|i: int| first_place(tools, kind, i) {
        let i = choose|i: int| first_place(tools, kind, i);
        if i < tools.len() - 1 {
            exchanged(tools, i, i + 1)
        } else {
            tools
        }
    } else {
        tools
    }
}

/// A tool has one first place.
pub proof fn lemma_first_place(tools: Seq<ToolBarKind>, kind: ToolBarKind, i: int)
    requires
        first_place(tools, kind, i),
    ensures
        (choose|j: int| first_place(tools, kind, j)) == i,
{
    let j = choose|j: int| first_place(tools, kind, j);
    assert(first_place(tools, kind, j));
    if j < i {
        assert(tools[j] != kind);
    } else if i < j {
        assert(tools[i] != kind);
    }
}

/// The tools of the tool bar, from left to right.
#[derive(Debug, PartialEq)]
pub struct ToolBarConfig(Vec<ToolBarKind>);

impl View for ToolBarConfig {
    type V = Seq<ToolBarKind>;

    closed spec fn view(&self) -> Seq<ToolBarKind> {
        self.0@
    }
}

/// The tools that the tool bar shows until the user arranges it.
pub open spec fn default_tools() -> Seq<ToolBarKind> {
    seq![
        ToolBarKind::ContinuosPlay,
        ToolBarKind::Stop,
        ToolBarKind::ExportSelected,
        ToolBarKind::Blank,
        ToolBarKind::Undo,
        ToolBarKind::Redo,
    ]
}

impl Default for ToolBarConfig {
    fn default() -> (r: ToolBarConfig)
        ensures
            r@ == default_tools(),
    {
        let mut tools: Vec<ToolBarKind> = Vec::new();
        tools.push(ToolBarKind::ContinuosPlay);
        tools.push(ToolBarKind::Stop);
        tools.push(ToolBarKind::ExportSelected);
        tools.push(ToolBarKind::Blank);
        tools.push(ToolBarKind::Undo);
        tools.push(ToolBarKind::Redo);
        assert(tools@ =~= default_tools());
        ToolBarConfig(tools)
    }
}

impl Clone for ToolBarConfig {
    fn clone(&self) -> (r: ToolBarConfig)
        ensures
            r@ == self@,
    {
        ToolBarConfig::from_tools(&self.0)
    }
}

impl ToolBarConfig {
    /// The tool bar that shows the given tools.
    pub fn from_tools(tools: &Vec<ToolBarKind>) -> (r: ToolBarConfig)
        ensures
            r@ == tools@,
    {
        let mut out: Vec<ToolBarKind> = Vec::new();
        let mut i: usize = 0;
        while i < tools.len()
            invariant
                i <= tools.len(),
                out@ == tools@.take(i as int),
            decreases tools.len() - i,
        {
            out.push(tools[i]);
            assert(tools@.take(i + 1) =~= tools@.take(i as int).push(tools[i as int]));
            i += 1;
        }
        assert(tools@.take(tools.len() as int) =~= tools@);
        ToolBarConfig(out)
    }

    /// The tools, from left to right.
    pub fn tools(&self) -> (r: &Vec<ToolBarKind>)
        ensures
            r@ == self@,
    {
        &self.0
    }

    /// Whether the tool bar shows `kind`.
    pub fn contains(&self, kind: ToolBarKind) -> (r: bool)
        ensures
            r == self@.contains(kind),
    {
        self.position(kind).is_some()
    }

    /// The first place of `kind`, if the tool bar shows it.
    pub fn position(&self, kind: ToolBarKind) -> (r: Option<usize>)
        ensures
            match r {
                Some(i) => first_place(self@, kind, i as int),
                None => !self@.contains(kind),
            },
    {
        let mut i: usize = 0;
        while i < self.0.len()
            invariant
                i <= self.0.len(),
                forall|j: int| 0 <= j < i ==> self.0[j] != kind,
            decreases self.0.len() - i,
        {
            if self.0[i] == kind {
                return Some(i);
            }
            i += 1;
        }
        None
    }

    /// Adds `kind` at the right end.
    pub fn insert(&mut self, kind: ToolBarKind)
        ensures
            final(self)@ == old(self)@.push(kind),
    {
        self.0.push(kind)
    }

    /// Removes every `kind`, and keeps the other tools in their order.
    pub fn remove(&mut self, kind: ToolBarKind)
        ensures
            final(self)@ == without(old(self)@, kind),
    {
        let ghost tools = self.0@;
        let ghost keep = is_not(kind);
        let mut out: Vec<ToolBarKind> = Vec::new();
        let mut i: usize = 0;
        assert(tools.take(0).filter(keep) =~= Seq::<ToolBarKind>::empty());
        while i < self.0.len()
            invariant
                i <= self.0.len(),
                self.0@ == tools,
                keep == is_not(kind),
                out@ == tools.take(i as int).filter(keep),
            decreases self.0.len() - i,
        {
            proof {
                assert(tools.take(i + 1) =~= tools.take(i as int).push(tools[i as int]));
                tools.take(i as int).lemma_filter_push(tools[i as int], keep);
            }
            if self.0[i] != kind {
                out.push(self.0[i]);
            }
            i += 1;
        }
        assert(tools.take(tools.len() as int) =~= tools);
        self.0 = out;
    }

    /// Moves the first `kind` one place to the left. Nothing moves where the
    /// tool bar does not show `kind`, or shows it first.
    pub fn move_left(&mut self, kind: ToolBarKind)
        ensures
            final(self)@ == moved_left(old(self)@, kind),
    {
        match self.position(kind) {
            Some(index) => {
                proof {
                    lemma_first_place(self@, kind, index as int);
                }
                if index > 0 {
                    let left = self.0[index - 1];
                    let right = self.0[index];
                    self.0[index - 1] = right;
                    self.0[index] = left;
                }
            },
            None => {
                assert(forall|i: int| first_place(self@, kind, i) ==> self@.contains(kind));
            },
        }
    }

    /// Moves the first `kind` one place to the right. Nothing moves where the
    /// tool bar does not show `kind`, or its first place is the last place.
    pub fn move_right(&mut self, kind: ToolBarKind)
        ensures
            final(self)@ == moved_right(old(self)@, kind),
    {
        match self.position(kind) {
            Some(index) => {
                proof {
                    lemma_first_place(self@, kind, index as int);
                }
                if index < self.0.len() - 1 {
                    let left = self.0[index];
                    let right = self.0[index + 1];
                    self.0[index] = right;
                    self.0[index + 1] = left;
                }
            },
            None => {
                assert(forall|i: int| first_place(self@, kind, i) ==> self@.contains(kind));
            },
        }
    }
}

/// How one tool is laid out on the page that arranges the tool bar.
#[derive(Clone, Copy, Debug, PartialEq, Eq, Structural)]
pub struct ToolButton {
    pub kind: ToolBarKind,
    /// Whether the button takes all the room that is left: the empty space
    /// does.
    pub fills: bool,
    /// Whether the hint of the tool opens to the left: it does once an empty
    /// space stands to the left of the tool.
    pub hint_opens_left: bool,
}

/// How the tool at place `i` is laid out.
pub open spec fn button_at(tools: Seq<ToolBarKind>, i: int) -> ToolButton {
    ToolButton {
        kind: tools[i],
        fills: tools[i] == ToolBarKind::Blank,
        hint_opens_left: tools.take(i).contains(ToolBarKind::Blank),
    }
}

/// How the tools are laid out, from left to right.
pub open spec fn buttons(tools: Seq<ToolBarKind>) -> Seq<ToolButton> {
    Seq::new(tools.len(), |i: int| button_at(tools, i))
}

impl ToolBarConfig {
    /// How the tools are laid out on the page that arranges the tool bar,
    /// from left to right.
    pub fn custom_ui_buttons(&self) -> (r: Vec<ToolButton>)
        ensures
            r@ == buttons(self@),
    {
        let mut out: Vec<ToolButton> = Vec::new();
        let mut space_exists = false;
        let mut i: usize = 0;
        while i < self.0.len()
            invariant
                i <= self.0.len(),
                out.len() == i,
                space_exists == self.0@.take(i as int).contains(ToolBarKind::Blank),
                forall|j: int| 0 <= j < i ==> out[j] == button_at(self.0@, j),
            decreases self.0.len() - i,
        {
            let kind = self.0[i];
            let fills = kind == ToolBarKind::Blank;
            out.push(ToolButton { kind, fills, hint_opens_left: space_exists });
            proof {
                let next = self.0@.take(i + 1);
                let prev = self.0@.take(i as int);
                assert(next =~= prev.push(kind));
                if prev.contains(ToolBarKind::Blank) {
                    let j = choose|j: int| 0 <= j < prev.len() && prev[j] == ToolBarKind::Blank;
                    assert(next[j] == ToolBarKind::Blank);
                }
                if fills {
                    assert(next[i as int] == ToolBarKind::Blank);
                }
            }
            if fills {
                space_exists = true;
            }
            i += 1;
        }
        assert(out@ =~= buttons(self.0@));
        out
    }
}

/// What the user did on the page that arranges the tool bar.
#[derive(Clone, Copy, Debug, PartialEq, Eq, Structural)]
pub enum ConfigureMessage {
    Toggle(ToolBarKind, bool),
    RestoreDefault,
    Save,
    Exit,
    MoveLeft,
    MoveRight,
    Remove,
    Select(ToolBarKind),
}

} // verus!
