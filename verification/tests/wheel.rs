use cod1::element::ElementType;
use cod1::inventory::{HeldGrenade, ItemCategory, PickupItem, PickupType, UseEffect};
use cod1::wheel::{
    wheel_busy, wheel_close, wheel_pending, wheel_press, wheel_refresh, PendingOutcome, PointerPick,
    WheelKey, WheelState,
};

fn bag() -> Vec<PickupItem> {
    vec![
        PickupItem { name: "医疗包".into(), item_type: PickupType::Health { amount_bits: 25.0f32.to_bits() } },
        PickupItem { name: "烈焰手雷".into(), item_type: PickupType::Grenade { element: ElementType::Fire } },
        PickupItem { name: "护甲片".into(), item_type: PickupType::Armor { amount_bits: 20.0f32.to_bits() } },
    ]
}

#[test]
fn short_press_quick_uses_first_item() {
    let mut state = WheelState::default();
    let mut items = bag();
    let mut held = HeldGrenade { item: None };
    let mut locked = true;
    assert!(wheel_press(&mut state, locked, true, false));
    assert_eq!(state.pending_key, Some(WheelKey::Recovery));
    assert!(wheel_busy(&state));
    assert_eq!(wheel_pending(&mut state, &mut items, &mut held, &mut locked, false, false), PendingOutcome::Waiting);
    match wheel_pending(&mut state, &mut items, &mut held, &mut locked, true, false) {
        PendingOutcome::QuickUsed(Some(u)) => assert_eq!(u.name, "医疗包"),
        other => panic!("unexpected {:?}", other),
    }
    assert_eq!(items.len(), 2);
    assert!(!wheel_busy(&state));
}

#[test]
fn long_press_opens_and_release_uses_selected_card() {
    let mut state = WheelState::default();
    let mut items = bag();
    let mut held = HeldGrenade { item: None };
    let mut locked = true;
    assert!(wheel_press(&mut state, locked, false, true));
    assert_eq!(wheel_pending(&mut state, &mut items, &mut held, &mut locked, false, true), PendingOutcome::Opened);
    assert!(state.open && !locked);
    assert_eq!(state.category, ItemCategory::Tactical);
    assert!(wheel_refresh(&mut state, &items, &mut locked, false, false, PointerPick::Card(0)));
    assert_eq!(state.filtered, vec![1]);
    assert_eq!(state.selected, Some(0));
    // key still held: nothing happens
    assert_eq!(wheel_close(&mut state, &mut items, &mut held, &mut locked, false, true, false), None);
    assert!(state.open);
    let used = wheel_close(&mut state, &mut items, &mut held, &mut locked, false, false, true).unwrap();
    assert_eq!(used.effect, UseEffect::Held);
    assert_eq!(held.item.unwrap().name, "烈焰手雷");
    assert!(!state.open && locked);
}

#[test]
fn centre_release_and_cancel_use_nothing() {
    let mut state = WheelState::default();
    let mut items = bag();
    let mut held = HeldGrenade { item: None };
    let mut locked = true;
    wheel_press(&mut state, locked, true, false);
    wheel_pending(&mut state, &mut items, &mut held, &mut locked, false, true);
    assert!(wheel_refresh(&mut state, &items, &mut locked, false, false, PointerPick::Center));
    assert_eq!(state.selected, None);
    assert_eq!(state.filtered, vec![0, 2]);
    assert_eq!(wheel_close(&mut state, &mut items, &mut held, &mut locked, false, false, true), None);
    assert_eq!(items.len(), 3);

    wheel_press(&mut state, locked, true, false);
    wheel_pending(&mut state, &mut items, &mut held, &mut locked, false, true);
    wheel_refresh(&mut state, &items, &mut locked, false, false, PointerPick::Card(1));
    assert!(!wheel_refresh(&mut state, &items, &mut locked, true, true, PointerPick::Card(1)));
    assert!(!state.open && locked && state.selected.is_none());
    assert_eq!(items.len(), 3);
}

#[test]
fn forced_close_and_empty_category() {
    let mut state = WheelState::default();
    let mut items = vec![bag().remove(0)];
    let mut held = HeldGrenade { item: None };
    let mut locked = true;
    // tactical long press with no grenades: nothing opens
    wheel_press(&mut state, locked, false, true);
    assert_eq!(wheel_pending(&mut state, &mut items, &mut held, &mut locked, false, true), PendingOutcome::NothingToShow);
    assert!(!state.open);
    // forced close (Esc) never uses the selection
    wheel_press(&mut state, locked, true, false);
    wheel_pending(&mut state, &mut items, &mut held, &mut locked, false, true);
    wheel_refresh(&mut state, &items, &mut locked, false, false, PointerPick::Card(0));
    assert_eq!(wheel_close(&mut state, &mut items, &mut held, &mut locked, true, true, true), None);
    assert_eq!(items.len(), 1);
    // a press dropped when another panel freed the cursor
    wheel_press(&mut state, true, true, false);
    let mut free = false;
    assert_eq!(wheel_pending(&mut state, &mut items, &mut held, &mut free, true, false), PendingOutcome::Abandoned);
    assert_eq!(state.pending_key, None);
}
