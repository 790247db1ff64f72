//! Main menu game modes: the mode table, the category filter of the mode
//! panel and the "start game" decision.

use vstd::prelude::*;

verus! {

/// Game mode id.
#[derive(Debug, Clone, Copy, PartialEq, Eq, Structural)]
pub enum GameModeId {
    Training,
    Campaign,
    Evacuation,
}

impl Default for GameModeId {
    fn default() -> (m: Self)
        ensures
            m == GameModeId::Training,
    {
        GameModeId::Training
    }
}

/// Mode metadata: name, description, category index and whether it is open.
#[derive(Debug, PartialEq, Eq)]
pub struct ModeSpec {
    pub id: GameModeId,
    pub name: String,
    pub desc: String,
    pub category: usize,
    pub available: bool,
}

/// Number of mode categories; category 0 means "all".
pub const MODE_CATEGORY_COUNT: usize = 4;

/// Name of each mode.
pub open spec fn mode_name(id: GameModeId) -> Seq<char> {
    match id {
        GameModeId::Training => "训练场"@,
        GameModeId::Campaign => "战役模式"@,
        GameModeId::Evacuation => "多人撤离"@,
    }
}

/// Description of each mode.
pub open spec fn mode_desc(id: GameModeId) -> Seq<char> {
    match id {
        GameModeId::Training => "单人 · 射击与元素反应演练"@,
        GameModeId::Campaign => "章节化 PVE 战役"@,
        GameModeId::Evacuation => "组队搜刮 · 带装撤离"@,
    }
}

/// Category of each mode (1 drills, 2 campaign, 3 extraction).
pub open spec fn mode_category(id: GameModeId) -> usize {
    match id {
        GameModeId::Training => 1,
        GameModeId::Campaign => 2,
        GameModeId::Evacuation => 3,
    }
}

/// Only the training ground is open.
pub open spec fn mode_available(id: GameModeId) -> bool {
    id == GameModeId::Training
}

/// Metadata of mode `id`.
pub fn game_mode_spec(id: GameModeId) -> (spec: ModeSpec)
    ensures
        spec.id == id,
        spec.name@ == mode_name(id),
        spec.desc@ == mode_desc(id),
        spec.category == mode_category(id),
        spec.available == mode_available(id),
{
    match id {
        GameModeId::Training => ModeSpec {
            id,
            name: "训练场".to_string(),
            desc: "单人 · 射击与元素反应演练".to_string(),
            category: 1,
            available: true,
        },
        GameModeId::Campaign => ModeSpec {
            id,
            name: "战役模式".to_string(),
            desc: "章节化 PVE 战役".to_string(),
            category: 2,
            available: false,
        },
        GameModeId::Evacuation => ModeSpec {
            id,
            name: "多人撤离".to_string(),
            desc: "组队搜刮 · 带装撤离".to_string(),
            category: 3,
            available: false,
        },
    }
}

/// Label of mode category `idx` (0 = all).
pub open spec fn category_label(idx: int) -> Seq<char> {
    if idx == 0 {
        "全部"@
    } else if idx == 1 {
        "演练"@
    } else if idx == 2 {
        "战役"@
    } else {
        "撤离"@
    }
}

/// Label of mode category `idx`.
pub fn mode_category_label(idx: usize) -> (s: &'static str)
    requires
        idx < MODE_CATEGORY_COUNT,
    ensures
        s@ == category_label(idx as int),
{
    if idx == 0 {
        "全部"
    } else if idx == 1 {
        "演练"
    } else if idx == 2 {
        "战役"
    } else {
        "撤离"
    }
}

/// A mode row is shown when the panel is open and the selected category is
/// "all" or the mode's own.
pub fn mode_row_visible(panel_open: bool, category: usize, id: GameModeId) -> (b: bool)
    ensures
        b == (panel_open && (category == 0 || mode_category(id) == category)),
{
    let spec = game_mode_spec(id);
    panel_open && (category == 0 || spec.category == category)
}

/// What "start game" does.
#[derive(Debug, PartialEq, Eq)]
pub enum StartGame {
    /// Enter the match.
    Enter,
    /// The mode is not open yet; show this status line.
    NotOpen(String),
}

/// Status line for a mode that is not open yet.
pub open spec fn not_open_message(id: GameModeId) -> Seq<char> {
    "「"@ + mode_name(id) + "」尚未开放，敬请期待"@
}

/// Start the selected mode: open modes are entered, others answer with the
/// "not open yet" status line.
pub fn start_game(selected: GameModeId) -> (r: StartGame)
    ensures
        mode_available(selected) ==> r == StartGame::Enter,
        !mode_available(selected) ==> (r matches StartGame::NotOpen(m) && m@ == not_open_message(selected)),
{
    let spec = game_mode_spec(selected);
    if spec.available {
        return StartGame::Enter;
    }
    let mut msg = "「".to_string();
    msg.append(spec.name.as_str());
    msg.append("」尚未开放，敬请期待");
    StartGame::NotOpen(msg)
}

/// Status line naming the selected mode.
pub fn current_mode_status(selected: GameModeId) -> (s: String)
    ensures
        s@ == "当前模式："@ + mode_name(selected),
{
    let spec = game_mode_spec(selected);
    let mut msg = "当前模式：".to_string();
    msg.append(spec.name.as_str());
    msg
}

} // verus!
