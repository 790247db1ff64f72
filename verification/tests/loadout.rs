use cod1::element::ElementType;
use cod1::inventory::{Inventory, PickupType};
use cod1::loadout::{
    apply_loadout, begin_drag, carried_index, carry, drop_carried, release_drag, warehouse_item,
    DragSource, Loadout, LoadoutDrag, FULL_ARMOR_BITS, LOADOUT_CAPACITY,
};

#[test]
fn default_loadout() {
    let load = Loadout::default();
    let names: Vec<&str> = load.carried.iter().map(|w| w.name.as_str()).collect();
    assert_eq!(names, vec!["医疗包", "护甲板", "额外弹药", "烈焰手雷", "冰霜手雷"]);
    assert_eq!(carried_index(&load, 2), Some(2));
    assert_eq!(carried_index(&load, 6), None);
    assert_eq!(warehouse_item(0).item_type, PickupType::Health { amount_bits: 30.0f32.to_bits() });
}

#[test]
fn carry_skips_duplicates_and_respects_capacity() {
    let mut load = Loadout::default();
    carry(&mut load, 0);
    assert_eq!(load.carried.len(), 5);
    carry(&mut load, 5);
    carry(&mut load, 6);
    assert_eq!(load.carried.len(), 7);
    drop_carried(&mut load, 0);
    assert_eq!(load.carried.len(), 6);
    assert_eq!(carried_index(&load, 0), None);
    carry(&mut load, 0);
    assert_eq!(load.carried.len(), 7);
    assert_eq!(LOADOUT_CAPACITY, 8);
    drop_carried(&mut load, 42);
    assert_eq!(load.carried.len(), 7);
}

#[test]
fn drag_and_drop() {
    let mut load = Loadout::default();
    let mut drag = LoadoutDrag::default();
    // a carried row cannot be dragged from the warehouse
    begin_drag(&mut drag, &load, Some(0), None);
    assert_eq!(drag.source, None);
    begin_drag(&mut drag, &load, Some(6), None);
    assert_eq!(drag.source, Some(DragSource::Warehouse(6)));
    // dropped outside the backpack: cancelled
    release_drag(&mut drag, &mut load, true, false);
    assert_eq!(drag.source, None);
    assert_eq!(load.carried.len(), 5);
    begin_drag(&mut drag, &load, Some(6), None);
    release_drag(&mut drag, &mut load, false, true);
    assert_eq!(load.carried.len(), 6);
    assert_eq!(carried_index(&load, 6), Some(5));
    begin_drag(&mut drag, &load, None, Some(1));
    assert_eq!(drag.source, Some(DragSource::Carried(1)));
    release_drag(&mut drag, &mut load, true, false);
    assert_eq!(carried_index(&load, 1), None);
}

#[test]
fn loadout_into_backpack() {
    let mut inv = Inventory::with_weapons(Vec::new());
    let load = Loadout::default();
    let armor = apply_loadout(&mut inv, &load);
    assert_eq!(armor, FULL_ARMOR_BITS);
    assert_eq!(f32::from_bits(armor), 60.0);
    assert_eq!(inv.ammo_pool, 150);
    let names: Vec<&str> = inv.items.iter().map(|i| i.name.as_str()).collect();
    assert_eq!(names, vec!["医疗包", "烈焰手雷", "冰霜手雷"]);
    assert_eq!(inv.items[1].item_type, PickupType::Grenade { element: ElementType::Fire });

    let empty = Loadout { carried: Vec::new() };
    let armor = apply_loadout(&mut inv, &empty);
    assert_eq!(armor, 0);
    assert_eq!(inv.ammo_pool, 60);
    assert!(inv.items.is_empty());
}
