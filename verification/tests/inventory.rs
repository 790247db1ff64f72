use cod1::element::ElementType;
use cod1::inventory::{
    can_start_reload, category_counts, finish_reload, fire, first_item_of_category, grant_supply, has_items_of_category,
    items_of_category, pick_up, push_supply, use_item_at, FireOutcome, HeldGrenade, Inventory,
    ItemCategory, ItemUse, PickupItem, PickupType, UseEffect, WeaponData, WeaponSlot,
};

fn rifle(element: ElementType) -> WeaponData {
    WeaponData {
        element,
        ammo: 30,
        max_ammo: 30,
        fire_interval_bits: 0.1f32.to_bits(),
        damage_bits: 20.0f32.to_bits(),
        name: format!("{:?} rifle", element),
    }
}

fn backpack() -> Inventory {
    Inventory::with_weapons(vec![rifle(ElementType::Fire), rifle(ElementType::Ice)])
}

fn item(name: &str, t: PickupType) -> PickupItem {
    PickupItem { name: name.to_string(), item_type: t }
}

#[test]
fn fresh_backpack() {
    let inv = backpack();
    assert_eq!(inv.max_slots, 8);
    assert_eq!(inv.ammo_pool, 150);
    assert_eq!(inv.weapons.len(), 2);
    assert!(inv.items.is_empty());
    assert_eq!(WeaponSlot::default().current, 0);
    assert_eq!(ItemCategory::default(), ItemCategory::Consumable);
}

#[test]
fn supply_table_rows() {
    let mut inv = backpack();
    assert_eq!(grant_supply(0, &mut inv), "已领取：步枪弹药 ×60（入弹药池）");
    assert_eq!(inv.ammo_pool, 210);
    assert_eq!(grant_supply(1, &mut inv), "已领取：医疗包");
    assert_eq!(inv.items[0].item_type, PickupType::Health { amount_bits: 25.0f32.to_bits() });
    assert_eq!(grant_supply(2, &mut inv), "已领取：护甲片");
    assert_eq!(inv.items[1].item_type, PickupType::Armor { amount_bits: 20.0f32.to_bits() });
    assert_eq!(grant_supply(6, &mut inv), "已领取：毒素手雷");
    assert_eq!(inv.items[2].item_type, PickupType::Grenade { element: ElementType::Poison });
    let before = inv.clone();
    assert_eq!(grant_supply(7, &mut inv), "");
    assert_eq!(inv, before);
}

#[test]
fn supply_into_full_backpack_is_refused() {
    let mut inv = backpack();
    for _ in 0..8 {
        assert_eq!(push_supply(&mut inv, "医疗包", PickupType::Health { amount_bits: 25.0f32.to_bits() }), "已领取：医疗包");
    }
    let before = inv.clone();
    assert_eq!(grant_supply(3, &mut inv), "背包已满（先在背包中使用道具）");
    assert_eq!(inv, before);
    assert!(inv.is_full());
}

#[test]
fn using_items() {
    let mut items = vec![
        item("医疗包", PickupType::Health { amount_bits: 25.0f32.to_bits() }),
        item("烈焰手雷", PickupType::Grenade { element: ElementType::Fire }),
        item("冰霜步枪", PickupType::Weapon { element: ElementType::Ice }),
        item("护甲片", PickupType::Armor { amount_bits: 20.0f32.to_bits() }),
    ];
    let mut held = HeldGrenade { item: None };
    assert_eq!(
        use_item_at(0, &mut items, &mut held),
        Some(ItemUse { name: "医疗包".into(), effect: UseEffect::Heal { amount_bits: 25.0f32.to_bits() } })
    );
    assert_eq!(items.len(), 3);
    // the rifle is not consumed
    assert_eq!(use_item_at(1, &mut items, &mut held), None);
    assert_eq!(items.len(), 3);
    // the grenade is taken out and held
    assert_eq!(use_item_at(0, &mut items, &mut held).unwrap().effect, UseEffect::Held);
    assert_eq!(held.item.as_ref().unwrap().name, "烈焰手雷");
    assert_eq!(items.len(), 2);
    // out of range
    assert_eq!(use_item_at(5, &mut items, &mut held), None);
    assert_eq!(use_item_at(1, &mut items, &mut held).unwrap().effect, UseEffect::Repair { amount_bits: 20.0f32.to_bits() });
}

#[test]
fn second_grenade_is_not_taken_while_holding_one() {
    let mut items = vec![item("冰霜手雷", PickupType::Grenade { element: ElementType::Ice })];
    let mut held = HeldGrenade { item: Some(item("烈焰手雷", PickupType::Grenade { element: ElementType::Fire })) };
    assert_eq!(use_item_at(0, &mut items, &mut held), None);
    assert_eq!(items.len(), 1);
    assert_eq!(held.item.as_ref().unwrap().name, "烈焰手雷");
}

#[test]
fn categories_and_wheel_cards() {
    let items = vec![
        item("医疗包", PickupType::Health { amount_bits: 25.0f32.to_bits() }),
        item("烈焰手雷", PickupType::Grenade { element: ElementType::Fire }),
        item("护甲片", PickupType::Armor { amount_bits: 20.0f32.to_bits() }),
        item("毒素手雷", PickupType::Grenade { element: ElementType::Poison }),
    ];
    assert_eq!(items[1].item_type.category(), ItemCategory::Tactical);
    assert_eq!(items_of_category(&items, ItemCategory::Tactical), vec![1, 3]);
    assert_eq!(items_of_category(&items, ItemCategory::Consumable), vec![0, 2]);
    assert_eq!(first_item_of_category(&items, ItemCategory::Tactical), Some(1));
    assert!(has_items_of_category(&items, ItemCategory::Consumable));
    assert!(!has_items_of_category(&items[..1].to_vec(), ItemCategory::Tactical));
    assert_eq!(first_item_of_category(&Vec::new(), ItemCategory::Tactical), None);
}

#[test]
fn picking_up_world_items() {
    let mut inv = backpack();
    assert!(pick_up(&mut inv, 0, &item("步枪弹药", PickupType::Ammo { amount: 30 }), rifle));
    assert_eq!(inv.ammo_pool, 180);
    assert!(pick_up(&mut inv, 1, &item("雷电步枪", PickupType::Weapon { element: ElementType::Electric }), rifle));
    assert_eq!(inv.weapons[1].element, ElementType::Electric);
    assert_eq!(inv.weapons[0].element, ElementType::Fire);
    assert!(pick_up(&mut inv, 0, &item("医疗包", PickupType::Health { amount_bits: 25.0f32.to_bits() }), rifle));
    assert_eq!(inv.items.len(), 1);
    inv.max_slots = 1;
    let before = inv.clone();
    assert!(!pick_up(&mut inv, 0, &item("医疗包", PickupType::Health { amount_bits: 25.0f32.to_bits() }), rifle));
    assert_eq!(inv, before);
}

#[test]
fn reload_moves_rounds_from_pool() {
    let mut inv = backpack();
    inv.weapons[0].ammo = 5;
    assert!(can_start_reload(&inv, 0));
    finish_reload(&mut inv, 0);
    assert_eq!(inv.weapons[0].ammo, 30);
    assert_eq!(inv.ammo_pool, 125);
    // partial reload when the pool runs low
    inv.weapons[1].ammo = 0;
    inv.ammo_pool = 12;
    finish_reload(&mut inv, 1);
    assert_eq!(inv.weapons[1].ammo, 12);
    assert_eq!(inv.ammo_pool, 0);
    assert!(!can_start_reload(&inv, 1));
    // full magazine: nothing moves
    inv.ammo_pool = 50;
    finish_reload(&mut inv, 0);
    assert_eq!((inv.weapons[0].ammo, inv.ammo_pool), (30, 50));
    assert!(!can_start_reload(&inv, 0));
}

#[test]
fn firing_spends_one_round() {
    let mut inv = backpack();
    assert_eq!(fire(&mut inv, 0), FireOutcome::Fired);
    assert_eq!(inv.weapons[0].ammo, 29);
    inv.weapons[1].ammo = 0;
    assert_eq!(fire(&mut inv, 1), FireOutcome::Empty { auto_reload: true });
    inv.ammo_pool = 0;
    assert_eq!(fire(&mut inv, 1), FireOutcome::Empty { auto_reload: false });
    assert_eq!(inv.weapons[1].ammo, 0);
}

#[test]
fn hud_category_counts() {
    let items = vec![
        item("医疗包", PickupType::Health { amount_bits: 25.0f32.to_bits() }),
        item("烈焰手雷", PickupType::Grenade { element: ElementType::Fire }),
        item("冰霜手雷", PickupType::Grenade { element: ElementType::Ice }),
    ];
    assert_eq!(category_counts(&items), (1, 2));
    assert_eq!(category_counts(&Vec::new()), (0, 0));
}
