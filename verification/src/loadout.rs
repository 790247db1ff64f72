//! The pre-match warehouse and the carried loadout: which supplies the player
//! takes into the match, moved between the two lists by drag and drop or
//! Shift+click, and written into the backpack when the match starts.

use vstd::prelude::*;
use crate::element::ElementType;
use crate::inventory::{Inventory, PickupItem, PickupType, names_grenade, names_rifle};
use crate::text::str_eq;

verus! {

/// Capacity of the carried loadout (same as the in-match supply slots).
pub const LOADOUT_CAPACITY: usize = 8;

/// Number of entries in the warehouse pool.
pub const WAREHOUSE_POOL_LEN: usize = 7;

/// Ammo pool when the loadout carries no extra ammunition.
pub const BASE_AMMO_POOL: i32 = 60;

/// Ammo pool when the loadout carries the extra ammunition.
pub const EXTRA_AMMO_POOL: i32 = 150;

/// Bit pattern of the armour a carried armour plate starts the match with (60.0).
pub const FULL_ARMOR_BITS: u32 = 0x4270_0000;

/// One warehouse supply: display name and type.
#[derive(Debug, PartialEq, Eq)]
pub struct WarehouseItem {
    pub name: String,
    pub item_type: PickupType,
}

impl Clone for WarehouseItem {
    fn clone(&self) -> (c: Self)
        ensures
            c == *self,
    {
        WarehouseItem { name: self.name.clone(), item_type: self.item_type }
    }
}

/// Names of the warehouse pool, in order.
pub open spec fn pool_name(idx: int) -> Seq<char> {
    if idx == 0 {
        "医疗包"@
    } else if idx == 1 {
        "护甲板"@
    } else if idx == 2 {
        "额外弹药"@
    } else if idx == 3 {
        "烈焰手雷"@
    } else if idx == 4 {
        "冰霜手雷"@
    } else if idx == 5 {
        "雷电手雷"@
    } else {
        "毒素手雷"@
    }
}

/// Types of the warehouse pool, in order (medkit 30 HP, armour plate 20,
/// 150 rounds, four grenades).
pub open spec fn pool_type(idx: int) -> PickupType {
    if idx == 0 {
        PickupType::Health { amount_bits: 0x41f0_0000 }
    } else if idx == 1 {
        PickupType::Armor { amount_bits: 0x41a0_0000 }
    } else if idx == 2 {
        PickupType::Ammo { amount: 150 }
    } else if idx == 3 {
        PickupType::Grenade { element: ElementType::Fire }
    } else if idx == 4 {
        PickupType::Grenade { element: ElementType::Ice }
    } else if idx == 5 {
        PickupType::Grenade { element: ElementType::Electric }
    } else {
        PickupType::Grenade { element: ElementType::Poison }
    }
}

/// Each warehouse entry is what its name says: a grenade of element `e`
/// exactly when the name reads "<e> grenade"; the warehouse holds no rifle.
pub proof fn law_warehouse_matches_names(idx: int, e: ElementType)
    requires
        0 <= idx < WAREHOUSE_POOL_LEN,
    ensures
        (pool_type(idx) == PickupType::Grenade { element: e }) <==> names_grenade(pool_name(idx), e),
        (pool_type(idx) == PickupType::Weapon { element: e }) <==> names_rifle(pool_name(idx), e),
{
    reveal_strlit("医疗包");
    reveal_strlit("护甲板");
    reveal_strlit("额外弹药");
    reveal_strlit("烈焰手雷");
    reveal_strlit("冰霜手雷");
    reveal_strlit("雷电手雷");
    reveal_strlit("毒素手雷");
}

/// Warehouse pool entry `idx`.
pub fn warehouse_item(idx: usize) -> (w: WarehouseItem)
    requires
        idx < WAREHOUSE_POOL_LEN,
    ensures
        w.name@ == pool_name(idx as int),
        w.item_type == pool_type(idx as int),
{
    if idx == 0 {
        WarehouseItem { name: "医疗包".to_string(), item_type: PickupType::Health { amount_bits: 0x41f0_0000 } }
    } else if idx == 1 {
        WarehouseItem { name: "护甲板".to_string(), item_type: PickupType::Armor { amount_bits: 0x41a0_0000 } }
    } else if idx == 2 {
        WarehouseItem { name: "额外弹药".to_string(), item_type: PickupType::Ammo { amount: 150 } }
    } else if idx == 3 {
        WarehouseItem {
            name: "烈焰手雷".to_string(),
            item_type: PickupType::Grenade { element: ElementType::Fire },
        }
    } else if idx == 4 {
        WarehouseItem {
            name: "冰霜手雷".to_string(),
            item_type: PickupType::Grenade { element: ElementType::Ice },
        }
    } else if idx == 5 {
        WarehouseItem {
            name: "雷电手雷".to_string(),
            item_type: PickupType::Grenade { element: ElementType::Electric },
        }
    } else {
        WarehouseItem {
            name: "毒素手雷".to_string(),
            item_type: PickupType::Grenade { element: ElementType::Poison },
        }
    }
}

/// The supplies the player carries into the match.
#[derive(Debug, PartialEq, Eq)]
pub struct Loadout {
    pub carried: Vec<WarehouseItem>,
}

/// A well-formed loadout: within capacity, no supply carried twice.
pub open spec fn loadout_ok(load: Loadout) -> bool {
    &&& load.carried@.len() <= LOADOUT_CAPACITY
    &&& forall|i: int, j: int|
        0 <= i < j < load.carried@.len() ==> (#[trigger] load.carried@[i]).name@ != (
        #[trigger] load.carried@[j]).name@
}

impl Default for Loadout {
    /// Medkit, armour plate, extra ammunition, fire and ice grenades.
    fn default() -> (load: Self)
        ensures
            load.carried@.len() == 5,
            forall|i: int|
                0 <= i < 5 ==> (#[trigger] load.carried@[i]).name@ == pool_name(i)
                    && load.carried@[i].item_type == pool_type(i),
            loadout_ok(load),
    {
        let mut carried: Vec<WarehouseItem> = Vec::new();
        carried.push(warehouse_item(0));
        carried.push(warehouse_item(1));
        carried.push(warehouse_item(2));
        carried.push(warehouse_item(3));
        carried.push(warehouse_item(4));
        proof {
            reveal_strlit("医疗包");
            reveal_strlit("护甲板");
            reveal_strlit("额外弹药");
            reveal_strlit("烈焰手雷");
            reveal_strlit("冰霜手雷");
            assert(pool_name(0)[0] != pool_name(1)[0]);
            assert(pool_name(0)[0] != pool_name(2)[0]);
            assert(pool_name(0)[0] != pool_name(3)[0]);
            assert(pool_name(0)[0] != pool_name(4)[0]);
            assert(pool_name(1)[0] != pool_name(2)[0]);
            assert(pool_name(1)[0] != pool_name(3)[0]);
            assert(pool_name(1)[0] != pool_name(4)[0]);
            assert(pool_name(2)[0] != pool_name(3)[0]);
            assert(pool_name(2)[0] != pool_name(4)[0]);
            assert(pool_name(3)[0] != pool_name(4)[0]);
        }
        Loadout { carried }
    }
}

/// Position of warehouse entry `pool_idx` in the carried list, found by name.
pub fn carried_index(load: &Loadout, pool_idx: usize) -> (r: Option<usize>)
    requires
        pool_idx < WAREHOUSE_POOL_LEN,
    ensures
        match r {
            Some(i) => i < load.carried@.len() && load.carried@[i as int].name@ == pool_name(
                pool_idx as int,
            ) && forall|j: int|
                0 <= j < i ==> (#[trigger] load.carried@[j]).name@ != pool_name(pool_idx as int),
            None => forall|j: int|
                0 <= j < load.carried@.len() ==> (#[trigger] load.carried@[j]).name@ != pool_name(
                    pool_idx as int,
                ),
        },
{
    let target = warehouse_item(pool_idx);
    let n = load.carried.len();
    let mut i: usize = 0;
    while i < n
        invariant
            n == load.carried@.len(),
            i <= n,
            target.name@ == pool_name(pool_idx as int),
            forall|j: int| 0 <= j < i ==> (#[trigger] load.carried@[j]).name@ != pool_name(pool_idx as int),
        decreases n - i,
    {
        if str_eq(load.carried[i].name.as_str(), target.name.as_str()) {
            return Some(i);
        }
        i = i + 1;
    }
    None
}

/// Carry warehouse entry `pool_idx`: added at the end when there is room and
/// it is not carried yet; otherwise nothing changes. Well-formed loadouts stay
/// well-formed.
pub fn carry(load: &mut Loadout, pool_idx: usize)
    requires
        pool_idx < WAREHOUSE_POOL_LEN,
    ensures
        ({
            let already = exists|j: int|
                0 <= j < old(load).carried@.len() && (#[trigger] old(load).carried@[j]).name@
                    == pool_name(pool_idx as int);
            if old(load).carried@.len() < LOADOUT_CAPACITY && !already {
                final(load).carried@.len() == old(load).carried@.len() + 1
                    && final(load).carried@.drop_last() == old(load).carried@
                    && final(load).carried@.last().name@ == pool_name(pool_idx as int)
                    && final(load).carried@.last().item_type == pool_type(pool_idx as int)
            } else {
                *final(load) == *old(load)
            }
        }),
        loadout_ok(*old(load)) ==> loadout_ok(*final(load)),
{
    if load.carried.len() < LOADOUT_CAPACITY {
        if carried_index(load, pool_idx).is_none() {
            load.carried.push(warehouse_item(pool_idx));
            proof {
                assert(load.carried@.drop_last() =~= old(load).carried@);
            }
        }
    }
}

/// Put carried entry `idx` back into the warehouse (no change when out of range).
/// Well-formed loadouts stay well-formed.
pub fn drop_carried(load: &mut Loadout, idx: usize)
    ensures
        idx < old(load).carried@.len() ==> final(load).carried@ == old(load).carried@.remove(idx as int),
        idx >= old(load).carried@.len() ==> *final(load) == *old(load),
        loadout_ok(*old(load)) ==> loadout_ok(*final(load)),
{
    if idx < load.carried.len() {
        load.carried.remove(idx);
        proof {
            if loadout_ok(*old(load)) {
                assert forall|i: int, j: int|
                    0 <= i < j < load.carried@.len() implies (#[trigger] load.carried@[i]).name@ != (
                    #[trigger] load.carried@[j]).name@ by {
                    let oi = if i < idx { i } else { i + 1 };
                    let oj = if j < idx { j } else { j + 1 };
                    assert(load.carried@[i] == old(load).carried@[oi]);
                    assert(load.carried@[j] == old(load).carried@[oj]);
                }
            }
        }
    }
}

/// Where a drag started: a warehouse row or a carried slot.
#[derive(Debug, Clone, Copy, PartialEq, Eq, Structural)]
pub enum DragSource {
    Warehouse(usize),
    Carried(usize),
}

/// Drag-and-drop state of the warehouse panel.
#[derive(Debug, Clone, Copy, PartialEq, Eq, Structural)]
pub struct LoadoutDrag {
    pub source: Option<DragSource>,
}

impl Default for LoadoutDrag {
    fn default() -> (d: Self)
        ensures
            d.source is None,
    {
        LoadoutDrag { source: None }
    }
}

/// Start a drag on a pressed warehouse row (only if not carried yet) or,
/// failing that, on a pressed carried slot; only when no drag is running.
pub fn begin_drag(drag: &mut LoadoutDrag, load: &Loadout, pressed_row: Option<usize>, pressed_slot: Option<usize>)
    requires
        pressed_row matches Some(r) ==> r < WAREHOUSE_POOL_LEN,
    ensures
        old(drag).source is Some ==> *final(drag) == *old(drag),
        old(drag).source is None ==> final(drag).source == match pressed_row {
            Some(r) => if (exists|j: int|
                0 <= j < load.carried@.len() && (#[trigger] load.carried@[j]).name@ == pool_name(r as int)) {
                None
            } else {
                Some(DragSource::Warehouse(r))
            },
            None => match pressed_slot {
                Some(s) => Some(DragSource::Carried(s)),
                None => None,
            },
        },
{
    if drag.source.is_some() {
        return;
    }
    match pressed_row {
        Some(r) => {
            if carried_index(load, r).is_none() {
                drag.source = Some(DragSource::Warehouse(r));
            }
        },
        None => {
            if let Some(s) = pressed_slot {
                drag.source = Some(DragSource::Carried(s));
            }
        },
    }
}

/// Release the mouse: a warehouse row dropped over the backpack is carried,
/// a carried slot dropped over the warehouse is put back; any other drop
/// cancels. The drag ends either way.
pub fn release_drag(drag: &mut LoadoutDrag, load: &mut Loadout, over_warehouse: bool, over_backpack: bool)
    requires
        old(drag).source matches Some(DragSource::Warehouse(r)) ==> r < WAREHOUSE_POOL_LEN,
    ensures
        final(drag).source is None,
        match old(drag).source {
            Some(DragSource::Warehouse(r)) => if over_backpack {
                let already = exists|j: int|
                    0 <= j < old(load).carried@.len() && (#[trigger] old(load).carried@[j]).name@
                        == pool_name(r as int);
                if old(load).carried@.len() < LOADOUT_CAPACITY && !already {
                    final(load).carried@.drop_last() == old(load).carried@
                        && final(load).carried@.last().name@ == pool_name(r as int)
                        && final(load).carried@.last().item_type == pool_type(r as int)
                } else {
                    *final(load) == *old(load)
                }
            } else {
                *final(load) == *old(load)
            },
            Some(DragSource::Carried(i)) => if over_warehouse && i < old(load).carried@.len() {
                final(load).carried@ == old(load).carried@.remove(i as int)
            } else {
                *final(load) == *old(load)
            },
            None => *final(load) == *old(load),
        },
        loadout_ok(*old(load)) ==> loadout_ok(*final(load)),
{
    match drag.source {
        Some(DragSource::Warehouse(r)) => {
            if over_backpack {
                carry(load, r);
            }
        },
        Some(DragSource::Carried(i)) => {
            if over_warehouse {
                drop_carried(load, i);
            }
        },
        None => {},
    }
    drag.source = None;
}

/// Whether a carried item goes into a supply slot when the match starts.
pub open spec fn goes_to_slot(w: WarehouseItem) -> bool {
    w.item_type is Health || w.item_type is Grenade
}

/// The backpack item a carried supply becomes.
pub open spec fn as_pickup(w: WarehouseItem) -> PickupItem {
    PickupItem { name: w.name, item_type: w.item_type }
}

/// A carried entry is one of the warehouse entries.
pub open spec fn from_warehouse(w: WarehouseItem) -> bool {
    exists|idx: int| 0 <= idx < WAREHOUSE_POOL_LEN && w.name@ == pool_name(idx) && w.item_type == pool_type(idx)
}

/// What `apply_loadout` puts in the supply slots keeps each carried item's
/// name and type: for a loadout taken from the warehouse, every backpack
/// item is a medkit or a grenade, and a grenade of element `e` exactly when
/// its name reads "<e> grenade".
pub proof fn law_loadout_backpack_matches_names(load: Loadout, items: Seq<PickupItem>, k: int, e: ElementType)
    requires
        forall|j: int| 0 <= j < load.carried@.len() ==> from_warehouse(#[trigger] load.carried@[j]),
        items == load.carried@.filter(|w: WarehouseItem| goes_to_slot(w)).map_values(
            |w: WarehouseItem| as_pickup(w),
        ),
        0 <= k < items.len(),
    ensures
        items[k].item_type is Health || items[k].item_type is Grenade,
        (items[k].item_type == PickupType::Grenade { element: e }) <==> names_grenade(items[k].name@, e),
{
    let pred = |w: WarehouseItem| goes_to_slot(w);
    let f = load.carried@.filter(pred);
    let w = f[k];
    assert(items[k] == as_pickup(w));
    load.carried@.lemma_filter_pred(pred, k);
    assert(f.contains(w));
    load.carried@.lemma_filter_contains_rev(pred, w);
    let j = choose|j: int| 0 <= j < load.carried@.len() && load.carried@[j] == w;
    assert(from_warehouse(load.carried@[j]));
    let idx = choose|idx: int|
        0 <= idx < WAREHOUSE_POOL_LEN && w.name@ == pool_name(idx) && w.item_type == pool_type(idx);
    law_warehouse_matches_names(idx, e);
}

/// Write the loadout into the backpack at match start: the supply slots hold
/// the carried medkits and grenades in order, the ammo pool is 150 with the
/// extra ammunition and 60 without; returns the starting armour (bits of 60.0
/// with an armour plate, 0.0 without). Rifles are never carried.
pub fn apply_loadout(inv: &mut Inventory, load: &Loadout) -> (armor_bits: u32)
    ensures
        final(inv).items@ == load.carried@.filter(|w: WarehouseItem| goes_to_slot(w)).map_values(
            |w: WarehouseItem| as_pickup(w),
        ),
        final(inv).ammo_pool == if exists|j: int|
            0 <= j < load.carried@.len() && (#[trigger] load.carried@[j]).item_type is Ammo {
            EXTRA_AMMO_POOL
        } else {
            BASE_AMMO_POOL
        },
        armor_bits == if exists|j: int|
            0 <= j < load.carried@.len() && (#[trigger] load.carried@[j]).item_type is Armor {
            FULL_ARMOR_BITS
        } else {
            0
        },
        final(inv).weapons == old(inv).weapons,
        final(inv).max_slots == old(inv).max_slots,
        final(inv).max_weapons == old(inv).max_weapons,
{
    inv.items.clear();
    inv.ammo_pool = BASE_AMMO_POOL;
    let mut armor_bits: u32 = 0;
    let n = load.carried.len();
    let ghost pred = |w: WarehouseItem| goes_to_slot(w);
    let ghost conv = |w: WarehouseItem| as_pickup(w);
    let mut i: usize = 0;
    while i < n
        invariant
            n == load.carried@.len(),
            i <= n,
            pred == (|w: WarehouseItem| goes_to_slot(w)),
            conv == (|w: WarehouseItem| as_pickup(w)),
            inv.items@ == load.carried@.take(i as int).filter(pred).map_values(conv),
            inv.ammo_pool == if exists|j: int| 0 <= j < i && (#[trigger] load.carried@[j]).item_type is Ammo {
                EXTRA_AMMO_POOL
            } else {
                BASE_AMMO_POOL
            },
            armor_bits == if exists|j: int| 0 <= j < i && (#[trigger] load.carried@[j]).item_type is Armor {
                FULL_ARMOR_BITS
            } else {
                0
            },
            inv.weapons == old(inv).weapons,
            inv.max_slots == old(inv).max_slots,
            inv.max_weapons == old(inv).max_weapons,
        decreases n - i,
    {
        proof {
            reveal_with_fuel(Seq::<_>::filter, 1);
            assert(load.carried@.take(i + 1).drop_last() =~= load.carried@.take(i as int));
            assert(load.carried@.take(i + 1).last() == load.carried@[i as int]);
        }
        let item = &load.carried[i];
        match item.item_type {
            PickupType::Health { .. } | PickupType::Grenade { .. } => {
                inv.items.push(PickupItem { name: item.name.clone(), item_type: item.item_type });
                proof {
                    assert(load.carried@.take(i + 1).filter(pred) == load.carried@.take(
                        i as int,
                    ).filter(pred).push(load.carried@[i as int]));
                    assert(inv.items@ =~= load.carried@.take(i + 1).filter(pred).map_values(conv));
                }
            },
            PickupType::Armor { .. } => {
                armor_bits = FULL_ARMOR_BITS;
            },
            PickupType::Ammo { .. } => {
                inv.ammo_pool = EXTRA_AMMO_POOL;
            },
            PickupType::Weapon { .. } => {},
        }
        proof {
            assert(inv.items@ =~= load.carried@.take(i + 1).filter(pred).map_values(conv));
        }
        i = i + 1;
    }
    assert(load.carried@.take(n as int) =~= load.carried@);
    armor_bits
}

} // verus!
