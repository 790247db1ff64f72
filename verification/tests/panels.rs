use cod1::interact::{InteractEntry, NearbyInteract, StationKind};
use cod1::menu::{current_mode_status, game_mode_spec, mode_category_label, mode_row_visible, start_game, GameModeId, StartGame};
use cod1::panels::{backpack_toggle, pause_action, pause_open, pause_toggle, station_key, OpenStation, PauseAction, PauseMenu, PauseOutcome, StationUi};

#[test]
fn pause_menu_states() {
    assert!(!pause_open(PauseMenu::default()));
    assert_eq!(pause_toggle(PauseMenu::Closed, false, true), PauseMenu::Main);
    assert_eq!(pause_toggle(PauseMenu::Settings, false, true), PauseMenu::Closed);
    assert_eq!(pause_toggle(PauseMenu::Closed, true, true), PauseMenu::Closed);
    assert_eq!(pause_toggle(PauseMenu::Main, false, false), PauseMenu::Main);
    assert_eq!(pause_action(PauseAction::OpenSettings), PauseOutcome::Menu(PauseMenu::Settings));
    assert_eq!(pause_action(PauseAction::ReturnMainMenu), PauseOutcome::LeaveToMainMenu);
}

#[test]
fn station_panels() {
    let closed = StationUi { panel: OpenStation::Closed, crate_window: None };
    let mut nearby = NearbyInteract::default();
    nearby.refresh(vec![
        InteractEntry::Station { kind: StationKind::OperatorDesk, label: "干员台".into(), entity: 1 },
        InteractEntry::Pickup(2),
        InteractEntry::Station { kind: StationKind::SupplyCrate, label: "物资箱".into(), entity: 3 },
    ]);
    let operator = StationUi { panel: OpenStation::Operator, crate_window: None };
    assert_eq!(station_key(closed, false, true, true, false, &nearby), operator);
    assert_eq!(station_key(closed, false, false, true, false, &nearby), closed);
    assert_eq!(station_key(operator, false, false, false, true, &nearby), closed);
    assert_eq!(station_key(operator, false, false, true, false, &nearby), closed);
    assert_eq!(station_key(operator, true, false, false, true, &nearby), operator);
    assert_eq!(station_key(closed, false, true, false, true, &nearby), closed);
    nearby.selected = 1;
    assert_eq!(station_key(closed, false, true, true, false, &nearby), closed);
    nearby.selected = 2;
    let crate_open = StationUi { panel: OpenStation::Closed, crate_window: Some(3) };
    assert_eq!(station_key(closed, false, true, true, false, &nearby), crate_open);
    assert_eq!(station_key(crate_open, false, true, false, true, &nearby), closed);
    assert_eq!(OpenStation::default(), OpenStation::Closed);
}

#[test]
fn backpack_open_close() {
    assert!(backpack_toggle(false, false, true, false));
    assert!(!backpack_toggle(false, false, false, true));
    assert!(!backpack_toggle(true, false, false, true));
    assert!(backpack_toggle(true, true, true, false));
}

#[test]
fn game_modes() {
    let spec = game_mode_spec(GameModeId::Training);
    assert_eq!(spec.name, "训练场");
    assert!(spec.available);
    assert_eq!(start_game(GameModeId::Training), StartGame::Enter);
    assert_eq!(start_game(GameModeId::Campaign), StartGame::NotOpen("「战役模式」尚未开放，敬请期待".into()));
    assert_eq!(current_mode_status(GameModeId::Evacuation), "当前模式：多人撤离");
    assert!(mode_row_visible(true, 0, GameModeId::Campaign));
    assert!(mode_row_visible(true, 3, GameModeId::Evacuation));
    assert!(!mode_row_visible(true, 1, GameModeId::Evacuation));
    assert!(!mode_row_visible(false, 0, GameModeId::Training));
    assert_eq!(mode_category_label(2), "战役");
    assert_eq!(GameModeId::default(), GameModeId::Training);
}
