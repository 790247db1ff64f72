use cod1::element::ElementType;
use cod1::interact::{interact_hint, menu_shown, row_entry_index, scrollbar_shown, InteractEntry, NearbyInteract, ScrollDirection, StationKind};
use cod1::inventory::{Inventory, PickupItem, PickupType, WeaponData};

fn pickups(n: u64) -> Vec<InteractEntry> {
    (0..n).map(InteractEntry::Pickup).collect()
}

#[test]
fn refresh_truncates_and_resets_selection() {
    let mut m = NearbyInteract::default();
    m.refresh(pickups(20));
    assert_eq!(m.entries.len(), 16);
    m.selected = 12;
    m.scroll_start = 5;
    m.refresh(pickups(10));
    assert_eq!(m.selected, 0);
    assert_eq!(m.scroll_start, 0);
    m.selected = 7;
    m.scroll_start = 5;
    m.refresh(pickups(9));
    assert_eq!((m.selected, m.scroll_start), (7, 1));
}

#[test]
fn scrolling_wraps_and_window_follows() {
    let mut m = NearbyInteract::default();
    m.refresh(pickups(12));
    m.scroll_step(ScrollDirection::Up);
    assert_eq!((m.selected, m.scroll_start), (11, 4));
    m.scroll_step(ScrollDirection::Down);
    assert_eq!((m.selected, m.scroll_start), (0, 0));
    for _ in 0..8 {
        m.scroll_step(ScrollDirection::Down);
    }
    assert_eq!((m.selected, m.scroll_start), (8, 1));
    m.scroll_step(ScrollDirection::Still);
    assert_eq!((m.selected, m.scroll_start), (8, 1));
}

#[test]
fn single_entry_does_not_scroll() {
    let mut m = NearbyInteract::default();
    m.refresh(pickups(1));
    m.scroll_step(ScrollDirection::Down);
    assert_eq!(m.selected, 0);
}

#[test]
fn removing_taken_pickup() {
    let mut m = NearbyInteract::default();
    let mut entries = vec![InteractEntry::Station { kind: StationKind::SupplyTable, label: "补给台".into(), entity: 99 }];
    entries.extend(pickups(10));
    m.refresh(entries);
    m.selected = 10;
    m.scroll_start = 3;
    m.remove_pickup(9);
    assert_eq!(m.entries.len(), 10);
    assert_eq!(m.selected, 9);
    assert_eq!(m.scroll_start, 2);
    assert_eq!(m.selected_entry(), Some(&InteractEntry::Pickup(8)));
    m.remove_pickup(1234);
    assert_eq!(m.entries.len(), 10);
}

#[test]
fn selected_entry_lookup() {
    let mut m = NearbyInteract::default();
    assert!(m.selected_entry().is_none());
    m.refresh(pickups(3));
    m.scroll_step(ScrollDirection::Down);
    assert_eq!(m.selected_entry(), Some(&InteractEntry::Pickup(1)));
}

fn rifle(name: &str) -> WeaponData {
    WeaponData { element: ElementType::Fire, ammo: 30, max_ammo: 30, fire_interval_bits: 0, damage_bits: 0, name: name.into() }
}

#[test]
fn menu_rows_and_hint() {
    let mut m = NearbyInteract::default();
    assert!(!menu_shown(&m, true, false, false));
    m.refresh(pickups(10));
    assert!(menu_shown(&m, true, false, false));
    assert!(!menu_shown(&m, false, false, false));
    assert!(!menu_shown(&m, true, true, false));
    assert!(scrollbar_shown(&m, true));
    m.scroll_start = 5;
    assert_eq!(row_entry_index(&m, 0), Some(2));
    assert_eq!(row_entry_index(&m, 7), Some(9));
    m.refresh(pickups(3));
    assert_eq!(row_entry_index(&m, 2), Some(2));
    assert_eq!(row_entry_index(&m, 3), None);
    assert!(!scrollbar_shown(&m, true));

    let mut inv = Inventory::with_weapons(vec![rifle("烈焰步枪"), rifle("冰霜步枪")]);
    let gun = PickupItem { name: "雷电步枪".into(), item_type: PickupType::Weapon { element: ElementType::Electric } };
    let med = PickupItem { name: "医疗包".into(), item_type: PickupType::Health { amount_bits: 0 } };
    let ammo = PickupItem { name: "弹药".into(), item_type: PickupType::Ammo { amount: 30 } };
    assert_eq!(interact_hint(false, Some(&gun), &inv, 1), "");
    assert_eq!(interact_hint(true, Some(&gun), &inv, 1), "将替换当前武器 冰霜步枪");
    assert_eq!(interact_hint(true, Some(&med), &inv, 0), "滚轮选择 · F 确认");
    inv.max_slots = 0;
    assert_eq!(interact_hint(true, Some(&med), &inv, 0), "背包已满");
    assert_eq!(interact_hint(true, Some(&ammo), &inv, 0), "滚轮选择 · F 确认");
    assert_eq!(interact_hint(true, None, &inv, 0), "滚轮选择 · F 确认");
}
