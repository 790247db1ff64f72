//! In-match supply crates: each crate holds a 3×4 grid of random loot; a cell
//! is moved into the backpack by drag and drop or Shift+click.

use vstd::prelude::*;
use rand::Rng;
use crate::element::ElementType;
use crate::inventory::{Inventory, PickupItem, PickupType, WeaponData, pool_fits, names_grenade, names_rifle};

verus! {

/// Loot cells of a crate: 3 columns × 4 rows.
pub const CRATE_CELLS: usize = 12;

/// Backpack drop slots shown under the loot grid.
pub const CRATE_SLOTS: usize = 8;

/// Number of entries in the loot table.
pub const CRATE_POOL_LEN: usize = 12;

/// Draws a number uniformly from `0..n` with `rand::thread_rng().gen_range`.
/// Claimed: the result is below `n` (rand panics on an empty range, hence
/// `n > 0`). Which number comes out is chance and is not stated.
#[verifier::external_body]
fn random_below(n: usize) -> (r: usize)
    requires
        n > 0,
    ensures
        r < n,
{
    rand::thread_rng().gen_range(0..n)
}

/// Names of the loot table, in order.
pub open spec fn crate_pool_name(idx: int) -> Seq<char> {
    if idx == 0 || idx == 1 {
        "步枪弹药 ×60"@
    } else if idx == 2 || idx == 3 {
        "医疗包"@
    } else if idx == 4 {
        "大型医疗包"@
    } else if idx == 5 {
        "护甲片"@
    } else if idx == 6 {
        "烈焰手雷"@
    } else if idx == 7 {
        "冰霜手雷"@
    } else if idx == 8 {
        "雷电手雷"@
    } else if idx == 9 {
        "毒素手雷"@
    } else if idx == 10 {
        "烈焰步枪"@
    } else {
        "冰霜步枪"@
    }
}

/// Types of the loot table, in order: ammunition twice, medkits (25 twice,
/// 50 once), an armour plate (20), four grenades and two rifles.
pub open spec fn crate_pool_type(idx: int) -> PickupType {
    if idx == 0 || idx == 1 {
        PickupType::Ammo { amount: 60 }
    } else if idx == 2 || idx == 3 {
        PickupType::Health { amount_bits: 0x41c8_0000 }
    } else if idx == 4 {
        PickupType::Health { amount_bits: 0x4248_0000 }
    } else if idx == 5 {
        PickupType::Armor { amount_bits: 0x41a0_0000 }
    } else if idx == 6 {
        PickupType::Grenade { element: ElementType::Fire }
    } else if idx == 7 {
        PickupType::Grenade { element: ElementType::Ice }
    } else if idx == 8 {
        PickupType::Grenade { element: ElementType::Electric }
    } else if idx == 9 {
        PickupType::Grenade { element: ElementType::Poison }
    } else if idx == 10 {
        PickupType::Weapon { element: ElementType::Fire }
    } else {
        PickupType::Weapon { element: ElementType::Ice }
    }
}

/// The item is entry `idx` of the loot table.
pub open spec fn is_crate_pool_item(item: PickupItem, idx: int) -> bool {
    item.name@ == crate_pool_name(idx) && item.item_type == crate_pool_type(idx)
}

/// Each loot table entry is what its name says: a grenade of element `e`
/// exactly when the name reads "<e> grenade", a rifle of element `e` exactly
/// when it reads "<e> rifle".
pub proof fn law_crate_loot_matches_names(idx: int, e: ElementType)
    requires
        0 <= idx < CRATE_POOL_LEN,
    ensures
        (crate_pool_type(idx) == PickupType::Grenade { element: e }) <==> names_grenade(crate_pool_name(idx), e),
        (crate_pool_type(idx) == PickupType::Weapon { element: e }) <==> names_rifle(crate_pool_name(idx), e),
{
    reveal_strlit("步枪弹药 ×60");
    reveal_strlit("医疗包");
    reveal_strlit("大型医疗包");
    reveal_strlit("护甲片");
    reveal_strlit("烈焰手雷");
    reveal_strlit("冰霜手雷");
    reveal_strlit("雷电手雷");
    reveal_strlit("毒素手雷");
    reveal_strlit("烈焰步枪");
    reveal_strlit("冰霜步枪");
}

/// Loot table entry `idx`.
pub fn crate_pool_item(idx: usize) -> (item: PickupItem)
    requires
        idx < CRATE_POOL_LEN,
    ensures
        is_crate_pool_item(item, idx as int),
{
    let (name, item_type) = if idx == 0 || idx == 1 {
        ("步枪弹药 ×60", PickupType::Ammo { amount: 60 })
    } else if idx == 2 || idx == 3 {
        ("医疗包", PickupType::Health { amount_bits: 0x41c8_0000 })
    } else if idx == 4 {
        ("大型医疗包", PickupType::Health { amount_bits: 0x4248_0000 })
    } else if idx == 5 {
        ("护甲片", PickupType::Armor { amount_bits: 0x41a0_0000 })
    } else if idx == 6 {
        ("烈焰手雷", PickupType::Grenade { element: ElementType::Fire })
    } else if idx == 7 {
        ("冰霜手雷", PickupType::Grenade { element: ElementType::Ice })
    } else if idx == 8 {
        ("雷电手雷", PickupType::Grenade { element: ElementType::Electric })
    } else if idx == 9 {
        ("毒素手雷", PickupType::Grenade { element: ElementType::Poison })
    } else if idx == 10 {
        ("烈焰步枪", PickupType::Weapon { element: ElementType::Fire })
    } else {
        ("冰霜步枪", PickupType::Weapon { element: ElementType::Ice })
    };
    PickupItem { name: name.to_string(), item_type }
}

/// One random loot item, drawn uniformly from the loot table.
pub fn roll_crate_item() -> (item: PickupItem)
    ensures
        exists|idx: int| 0 <= idx < CRATE_POOL_LEN && is_crate_pool_item(item, idx),
{
    let idx = random_below(CRATE_POOL_LEN);
    crate_pool_item(idx)
}

/// A fresh crate grid: every one of the twelve cells holds a random item.
pub fn random_crate_loot() -> (loot: Vec<Option<PickupItem>>)
    ensures
        loot@.len() == CRATE_CELLS,
        forall|c: int|
            0 <= c < CRATE_CELLS ==> ((#[trigger] loot@[c]) matches Some(item) && exists|idx: int|
                0 <= idx < CRATE_POOL_LEN && is_crate_pool_item(item, idx)),
{
    let mut loot: Vec<Option<PickupItem>> = Vec::new();
    let mut c: usize = 0;
    while c < CRATE_CELLS
        invariant
            c <= CRATE_CELLS,
            loot@.len() == c,
            forall|k: int|
                0 <= k < c ==> ((#[trigger] loot@[k]) matches Some(item) && exists|idx: int|
                    0 <= idx < CRATE_POOL_LEN && is_crate_pool_item(item, idx)),
        decreases CRATE_CELLS - c,
    {
        loot.push(Some(roll_crate_item()));
        c = c + 1;
    }
    loot
}

/// A crate in the level: its loot grid (`None` = already taken) and name.
#[derive(Debug, PartialEq, Eq)]
pub struct SupplyCrate {
    pub loot: Vec<Option<PickupItem>>,
    pub label: String,
}

/// The crate whose panel is open, if any (by entity id).
#[derive(Debug, Clone, Copy, PartialEq, Eq, Structural)]
pub struct CrateWindow {
    pub crate_entity: Option<u64>,
}

/// Loot cell being dragged, if any.
#[derive(Debug, Clone, Copy, PartialEq, Eq, Structural)]
pub struct CrateDrag {
    pub source: Option<usize>,
}

/// Forget the open crate and any drag left over from the previous match.
pub fn reset_crate_state(window: &mut CrateWindow, drag: &mut CrateDrag)
    ensures
        final(window).crate_entity is None,
        final(drag).source is None,
{
    window.crate_entity = None;
    drag.source = None;
}

/// Message when the cell is empty or out of range.
pub open spec fn taken_message() -> Seq<char> {
    "已取走"@
}

/// Message when a supply meets a full backpack.
pub open spec fn crate_full_message(name: Seq<char>) -> Seq<char> {
    "背包已满（"@ + name + "）"@
}

/// Message when ammunition went into the pool.
pub open spec fn ammo_taken_message(name: Seq<char>) -> Seq<char> {
    "已领取："@ + name + "（入弹药池）"@
}

/// Message when a rifle replaced the one in hand.
pub open spec fn weapon_taken_message(name: Seq<char>) -> Seq<char> {
    "已领取武器："@ + name + "（替换当前手持）"@
}

/// Message when a supply took a backpack slot.
pub open spec fn supply_taken_message(name: Seq<char>) -> Seq<char> {
    "已领取："@ + name
}

/// Move loot cell `cell` into the backpack: ammunition into the pool, a rifle
/// (built by `make_rifle`) in place of the one in hand, any other item into a
/// free slot. An empty or out-of-range cell, or a supply meeting a full
/// backpack, fails and leaves crate and backpack unchanged.
pub fn try_transfer<F: Fn(ElementType) -> WeaponData>(
    crate_loot: &mut Vec<Option<PickupItem>>,
    cell: usize,
    inventory: &mut Inventory,
    current: usize,
    make_rifle: F,
) -> (r: Result<String, String>)
    requires
        cell < old(crate_loot)@.len() ==> match old(crate_loot)@[cell as int] {
            Some(item) => match item.item_type {
                PickupType::Ammo { amount } => pool_fits(*old(inventory), amount as int),
                PickupType::Weapon { element } => current < old(inventory).weapons@.len()
                    && make_rifle.requires((element,)),
                _ => true,
            },
            None => true,
        },
    ensures
        cell >= old(crate_loot)@.len() || old(crate_loot)@[cell as int] is None ==> (r matches Err(m)
            && m@ == taken_message() && final(crate_loot)@ == old(crate_loot)@ && *final(inventory)
            == *old(inventory)),
        cell < old(crate_loot)@.len() ==> match old(crate_loot)@[cell as int] {
            None => true,
            Some(item) => match item.item_type {
                PickupType::Ammo { amount } => r matches Ok(m) && m@ == ammo_taken_message(item.name@)
                    && final(crate_loot)@ == old(crate_loot)@.update(cell as int, None)
                    && final(inventory).ammo_pool == old(inventory).ammo_pool + amount
                    && final(inventory).items == old(inventory).items && final(inventory).weapons
                    == old(inventory).weapons && final(inventory).max_slots == old(inventory).max_slots
                    && final(inventory).max_weapons == old(inventory).max_weapons,
                PickupType::Weapon { element } => r matches Ok(m) && m@ == weapon_taken_message(
                    item.name@,
                ) && final(crate_loot)@ == old(crate_loot)@.update(cell as int, None)
                    && final(inventory).weapons@ == old(inventory).weapons@.update(
                    current as int,
                    final(inventory).weapons@[current as int],
                ) && make_rifle.ensures((element,), final(inventory).weapons@[current as int])
                    && final(inventory).items == old(inventory).items && final(inventory).ammo_pool
                    == old(inventory).ammo_pool && final(inventory).max_slots == old(inventory).max_slots
                    && final(inventory).max_weapons == old(inventory).max_weapons,
                _ => if old(inventory).spec_is_full() {
                    r matches Err(m) && m@ == crate_full_message(item.name@) && final(crate_loot)@
                        == old(crate_loot)@ && *final(inventory) == *old(inventory)
                } else {
                    r matches Ok(m) && m@ == supply_taken_message(item.name@) && final(crate_loot)@
                        == old(crate_loot)@.update(cell as int, None) && final(inventory).items@
                        == old(inventory).items@.push(item) && final(inventory).weapons
                        == old(inventory).weapons && final(inventory).ammo_pool
                        == old(inventory).ammo_pool && final(inventory).max_slots
                        == old(inventory).max_slots && final(inventory).max_weapons
                        == old(inventory).max_weapons
                },
            },
        },
        old(inventory).items@.len() <= old(inventory).max_slots ==> final(inventory).items@.len()
            <= final(inventory).max_slots,
{
    if cell >= crate_loot.len() {
        return Err("已取走".to_string());
    }
    let item_type = match &crate_loot[cell] {
        Some(item) => item.item_type,
        None => {
            return Err("已取走".to_string());
        },
    };
    match item_type {
        PickupType::Ammo { .. } | PickupType::Weapon { .. } => {},
        _ => {
            if inventory.items.len() >= inventory.max_slots {
                let mut msg = "背包已满（".to_string();
                match &crate_loot[cell] {
                    Some(item) => msg.append(item.name.as_str()),
                    None => {},
                }
                msg.append("）");
                return Err(msg);
            }
        },
    }
    let ghost before = crate_loot@;
    let item = crate_loot.remove(cell);
    crate_loot.insert(cell, None);
    assert(crate_loot@ =~= before.update(cell as int, None));
    let item = match item {
        Some(item) => item,
        None => {
            return Err("已取走".to_string());
        },
    };
    let mut msg;
    match item.item_type {
        PickupType::Ammo { amount } => {
            inventory.ammo_pool = inventory.ammo_pool + amount;
            msg = "已领取：".to_string();
            msg.append(item.name.as_str());
            msg.append("（入弹药池）");
        },
        PickupType::Weapon { element } => {
            let rifle = make_rifle(element);
            inventory.weapons.set(current, rifle);
            msg = "已领取武器：".to_string();
            msg.append(item.name.as_str());
            msg.append("（替换当前手持）");
        },
        _ => {
            msg = "已领取：".to_string();
            msg.append(item.name.as_str());
            inventory.items.push(item);
        },
    }
    Ok(msg)
}

/// Start dragging loot cell `pressed` when no drag runs and the cell holds an item.
pub fn begin_crate_drag(drag: &mut CrateDrag, loot: &Vec<Option<PickupItem>>, pressed: Option<usize>)
    ensures
        *final(drag) == if old(drag).source is None && (pressed matches Some(c) && c < loot@.len()
            && loot@[c as int] is Some) {
            CrateDrag { source: pressed }
        } else {
            *old(drag)
        },
{
    if drag.source.is_some() {
        return;
    }
    if let Some(c) = pressed {
        if c < loot.len() && loot[c].is_some() {
            drag.source = Some(c);
        }
    }
}

} // verus!
