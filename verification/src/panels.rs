//! Which overlay owns the cursor: the pause menu, the station panels and the
//! backpack. Each decision takes the current state and this frame's input and
//! returns the next state; the caller shows/hides the UI and locks or frees
//! the cursor accordingly.

use vstd::prelude::*;
use crate::interact::{InteractEntry, NearbyInteract, StationKind};

verus! {

/// Pause menu state: closed, main panel, settings panel.
#[derive(Debug, Clone, Copy, PartialEq, Eq, Structural)]
pub enum PauseMenu {
    Closed,
    Main,
    Settings,
}

impl Default for PauseMenu {
    fn default() -> (p: Self)
        ensures
            p == PauseMenu::Closed,
    {
        PauseMenu::Closed
    }
}

/// Game systems are gated off while the pause menu is open.
pub fn pause_open(pause: PauseMenu) -> (b: bool)
    ensures
        b == (pause != PauseMenu::Closed),
{
    pause != PauseMenu::Closed
}

/// Toggle the pause menu with the ` key; ignored while the item wheel is busy
/// or a station panel is open. Opening goes to the main panel; any open
/// panel closes.
pub fn pause_toggle(pause: PauseMenu, busy: bool, backquote: bool) -> (next: PauseMenu)
    ensures
        next == if busy || !backquote {
            pause
        } else if pause == PauseMenu::Closed {
            PauseMenu::Main
        } else {
            PauseMenu::Closed
        },
{
    if busy || !backquote {
        return pause;
    }
    match pause {
        PauseMenu::Closed => PauseMenu::Main,
        _ => PauseMenu::Closed,
    }
}

/// Buttons of the pause panels.
#[derive(Debug, Clone, Copy, PartialEq, Eq, Structural)]
pub enum PauseAction {
    Resume,
    OpenSettings,
    BackToPause,
    ReturnMainMenu,
}

/// Result of pressing a pause button.
#[derive(Debug, Clone, Copy, PartialEq, Eq, Structural)]
pub enum PauseOutcome {
    /// The menu is now in this state (closing locks the cursor again).
    Menu(PauseMenu),
    /// Leave the match for the main menu.
    LeaveToMainMenu,
}

/// What a pause button does.
pub fn pause_action(action: PauseAction) -> (o: PauseOutcome)
    ensures
        o == match action {
            PauseAction::Resume => PauseOutcome::Menu(PauseMenu::Closed),
            PauseAction::OpenSettings => PauseOutcome::Menu(PauseMenu::Settings),
            PauseAction::BackToPause => PauseOutcome::Menu(PauseMenu::Main),
            PauseAction::ReturnMainMenu => PauseOutcome::LeaveToMainMenu,
        },
{
    match action {
        PauseAction::Resume => PauseOutcome::Menu(PauseMenu::Closed),
        PauseAction::OpenSettings => PauseOutcome::Menu(PauseMenu::Settings),
        PauseAction::BackToPause => PauseOutcome::Menu(PauseMenu::Main),
        PauseAction::ReturnMainMenu => PauseOutcome::LeaveToMainMenu,
    }
}

/// The station panel that is open.
#[derive(Debug, Clone, Copy, PartialEq, Eq, Structural)]
pub enum OpenStation {
    /// No panel is open.
    Closed,
    Supply,
    Operator,
}

impl Default for OpenStation {
    fn default() -> (s: Self)
        ensures
            s == OpenStation::Closed,
    {
        OpenStation::Closed
    }
}

/// The station of the selected interact entry, if it is a station: its kind and entity.
pub open spec fn selected_station(nearby: NearbyInteract) -> Option<(StationKind, u64)> {
    if nearby.selected < nearby.entries@.len() {
        match nearby.entries@[nearby.selected as int] {
            InteractEntry::Station { kind, entity, .. } => Some((kind, entity)),
            InteractEntry::Pickup(_) => None,
        }
    } else {
        None
    }
}

/// Open station UI: the station panel and the supply crate window (by entity).
#[derive(Debug, Clone, Copy, PartialEq, Eq, Structural)]
pub struct StationUi {
    pub panel: OpenStation,
    pub crate_window: Option<u64>,
}

/// Some station UI is open.
pub open spec fn station_ui_open(ui: StationUi) -> bool {
    ui.panel != OpenStation::Closed || ui.crate_window is Some
}

/// Everything closed.
pub open spec fn closed_ui() -> StationUi {
    StationUi { panel: OpenStation::Closed, crate_window: None }
}

/// One frame of the station key handling: ignored while the wheel is busy or
/// a grenade is held. With nothing open, F (cursor locked) opens the selected
/// station: the supply or operator panel, or the crate's loot window. With
/// something open, F or Esc closes everything (and locks the cursor); Esc
/// never opens anything.
pub fn station_key(
    ui: StationUi,
    busy: bool,
    cursor_locked: bool,
    f_pressed: bool,
    esc_pressed: bool,
    nearby: &NearbyInteract,
) -> (next: StationUi)
    ensures
        next == if busy {
            ui
        } else if f_pressed {
            if !station_ui_open(ui) {
                if cursor_locked {
                    match selected_station(*nearby) {
                        Some((StationKind::SupplyTable, _)) => StationUi {
                            panel: OpenStation::Supply,
                            crate_window: None,
                        },
                        Some((StationKind::OperatorDesk, _)) => StationUi {
                            panel: OpenStation::Operator,
                            crate_window: None,
                        },
                        Some((StationKind::SupplyCrate, e)) => StationUi {
                            panel: OpenStation::Closed,
                            crate_window: Some(e),
                        },
                        None => ui,
                    }
                } else {
                    ui
                }
            } else {
                closed_ui()
            }
        } else if esc_pressed && station_ui_open(ui) {
            closed_ui()
        } else {
            ui
        },
{
    let closed = StationUi { panel: OpenStation::Closed, crate_window: None };
    let open = ui.panel != OpenStation::Closed || ui.crate_window.is_some();
    if busy {
        return ui;
    }
    if f_pressed {
        if !open {
            if cursor_locked {
                match nearby.selected_entry() {
                    Some(InteractEntry::Station { kind, entity, .. }) => match kind {
                        StationKind::SupplyTable => StationUi { panel: OpenStation::Supply, crate_window: None },
                        StationKind::OperatorDesk => StationUi {
                            panel: OpenStation::Operator,
                            crate_window: None,
                        },
                        StationKind::SupplyCrate => StationUi {
                            panel: OpenStation::Closed,
                            crate_window: Some(*entity),
                        },
                    },
                    _ => ui,
                }
            } else {
                ui
            }
        } else {
            closed
        }
    } else if esc_pressed && open {
        closed
    } else {
        ui
    }
}

/// Whether the backpack is shown after one frame: ignored while the wheel is
/// busy, a station panel is open or a crate window is open; Tab or Esc closes
/// an open backpack, only Tab opens it.
pub fn backpack_toggle(visible: bool, blocked: bool, tab: bool, esc: bool) -> (next: bool)
    ensures
        next == if blocked || (!tab && !esc) {
            visible
        } else if visible {
            false
        } else {
            tab
        },
{
    if blocked || (!tab && !esc) {
        return visible;
    }
    if visible {
        false
    } else {
        tab
    }
}

} // verus!
