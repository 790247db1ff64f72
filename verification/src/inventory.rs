//! The player's backpack: supply slots, the two-rifle weapon rack and the
//! pooled rifle ammunition; supply table grants, item use, pickups, reloading
//! and firing.

use vstd::prelude::*;
use crate::element::ElementType;

verus! {

/// Quick-use category of a backpack item.
#[derive(Debug, Clone, Copy, PartialEq, Eq, Structural)]
pub enum ItemCategory {
    /// Recovery items (key 3 / wheel): medkits, armour plates, ammunition.
    Consumable,
    /// Tactical items (key 4 / wheel): throwable elemental grenades.
    Tactical,
}

impl Default for ItemCategory {
    fn default() -> (c: Self)
        ensures
            c == ItemCategory::Consumable,
    {
        ItemCategory::Consumable
    }
}

/// What a pickup is. Healing and armour amounts are `f32` bit patterns.
#[derive(Debug, Clone, Copy, PartialEq, Eq, Structural)]
pub enum PickupType {
    /// Rifle ammunition: goes straight into the ammo pool, never into a slot.
    Ammo { amount: i32 },
    /// Restores health by the `f32` whose bits are `amount_bits`.
    Health { amount_bits: u32 },
    /// Restores armour by the `f32` whose bits are `amount_bits`.
    Armor { amount_bits: u32 },
    /// An elemental grenade.
    Grenade { element: ElementType },
    /// A rifle of the given element: replaces the rifle in hand.
    Weapon { element: ElementType },
}

/// Quick-use category of an item type.
pub open spec fn spec_category(t: PickupType) -> ItemCategory {
    match t {
        PickupType::Grenade { .. } => ItemCategory::Tactical,
        _ => ItemCategory::Consumable,
    }
}

impl PickupType {
    /// Grenades are tactical, everything else is a consumable.
    pub fn category(&self) -> (c: ItemCategory)
        ensures
            c == spec_category(*self),
    {
        match self {
            PickupType::Grenade { .. } => ItemCategory::Tactical,
            _ => ItemCategory::Consumable,
        }
    }
}

/// An item lying in the world or carried in the backpack.
#[derive(Debug, PartialEq, Eq)]
pub struct PickupItem {
    pub name: String,
    pub item_type: PickupType,
}

impl Clone for PickupItem {
    fn clone(&self) -> (c: Self)
        ensures
            c == *self,
    {
        PickupItem { name: self.name.clone(), item_type: self.item_type }
    }
}

/// A rifle on the weapon rack. `fire_interval_bits` and `damage_bits` are
/// `f32` bit patterns.
#[derive(Debug, PartialEq, Eq)]
pub struct WeaponData {
    pub element: ElementType,
    pub ammo: i32,
    pub max_ammo: i32,
    pub fire_interval_bits: u32,
    pub damage_bits: u32,
    pub name: String,
}

impl Clone for WeaponData {
    fn clone(&self) -> (c: Self)
        ensures
            c == *self,
    {
        WeaponData {
            element: self.element,
            ammo: self.ammo,
            max_ammo: self.max_ammo,
            fire_interval_bits: self.fire_interval_bits,
            damage_bits: self.damage_bits,
            name: self.name.clone(),
        }
    }
}

/// The backpack always holds exactly two primary weapons.
pub const MAX_WEAPONS: usize = 2;

/// Supply slots of a fresh backpack.
pub const DEFAULT_MAX_SLOTS: usize = 8;

/// Rounds in the ammo pool of a fresh backpack.
pub const DEFAULT_AMMO_POOL: i32 = 150;

/// Rounds handed out by the first row of the supply table.
pub const SUPPLY_AMMO: i32 = 60;

/// The player's backpack: supply slots + weapon rack + ammo pool. Weapons
/// live in `weapons` (the weapon slot only stores the index in hand) and
/// ammunition is a shared pool that reloading draws from.
#[derive(Debug, Clone, PartialEq, Eq)]
pub struct Inventory {
    pub items: Vec<PickupItem>,
    pub max_slots: usize,
    pub weapons: Vec<WeaponData>,
    pub max_weapons: usize,
    pub ammo_pool: i32,
}

/// Index of the weapon in hand.
#[derive(Debug, Clone, Copy, PartialEq, Eq, Structural)]
pub struct WeaponSlot {
    pub current: usize,
}

impl Default for WeaponSlot {
    fn default() -> (s: Self)
        ensures
            s.current == 0,
    {
        WeaponSlot { current: 0 }
    }
}

/// Message when a supply cannot be stored.
pub open spec fn backpack_full_message() -> Seq<char> {
    "背包已满（先在背包中使用道具）"@
}

/// Message when a supply was stored or granted.
pub open spec fn granted_message(name: Seq<char>) -> Seq<char> {
    "已领取："@ + name
}

/// Message when the supply table's ammunition row was taken.
pub open spec fn ammo_granted_message() -> Seq<char> {
    "已领取：步枪弹药 ×60（入弹药池）"@
}

/// The supply table rows that hand out an item: (name, type).
pub open spec fn supply_row_item(row: int) -> Option<(Seq<char>, PickupType)> {
    if row == 1 {
        Some(("医疗包"@, PickupType::Health { amount_bits: 0x41c8_0000 }))
    } else if row == 2 {
        Some(("护甲片"@, PickupType::Armor { amount_bits: 0x41a0_0000 }))
    } else if row == 3 {
        Some(("烈焰手雷"@, PickupType::Grenade { element: ElementType::Fire }))
    } else if row == 4 {
        Some(("冰霜手雷"@, PickupType::Grenade { element: ElementType::Ice }))
    } else if row == 5 {
        Some(("雷电手雷"@, PickupType::Grenade { element: ElementType::Electric }))
    } else if row == 6 {
        Some(("毒素手雷"@, PickupType::Grenade { element: ElementType::Poison }))
    } else {
        None
    }
}

/// The element a supply's display name begins with: "烈焰" fire, "冰霜" ice,
/// "雷电" electric, "毒素" poison.
pub open spec fn name_element(name: Seq<char>) -> Option<ElementType> {
    if name.len() < 2 {
        None
    } else if name[0] == '烈' && name[1] == '焰' {
        Some(ElementType::Fire)
    } else if name[0] == '冰' && name[1] == '霜' {
        Some(ElementType::Ice)
    } else if name[0] == '雷' && name[1] == '电' {
        Some(ElementType::Electric)
    } else if name[0] == '毒' && name[1] == '素' {
        Some(ElementType::Poison)
    } else {
        None
    }
}

/// The name's last two characters are `a` then `b`.
pub open spec fn name_ends_with(name: Seq<char>, a: char, b: char) -> bool {
    name.len() >= 2 && name[name.len() - 2] == a && name[name.len() - 1] == b
}

/// The name reads "<element> grenade" ("...手雷") for element `e`.
pub open spec fn names_grenade(name: Seq<char>, e: ElementType) -> bool {
    name_ends_with(name, '手', '雷') && name_element(name) == Some(e)
}

/// The name reads "<element> rifle" ("...步枪") for element `e`.
pub open spec fn names_rifle(name: Seq<char>, e: ElementType) -> bool {
    name_ends_with(name, '步', '枪') && name_element(name) == Some(e)
}

/// Each supply table row hands out what its name says: a grenade of element
/// `e` exactly when the name reads "<e> grenade", and never a rifle.
pub proof fn law_supply_rows_match_names(row: int, e: ElementType)
    requires
        1 <= row <= 6,
    ensures
        (supply_row_item(row).unwrap().1 == PickupType::Grenade { element: e }) <==> names_grenade(
            supply_row_item(row).unwrap().0,
            e,
        ),
        (supply_row_item(row).unwrap().1 == PickupType::Weapon { element: e }) <==> names_rifle(
            supply_row_item(row).unwrap().0,
            e,
        ),
{
    reveal_strlit("医疗包");
    reveal_strlit("护甲片");
    reveal_strlit("烈焰手雷");
    reveal_strlit("冰霜手雷");
    reveal_strlit("雷电手雷");
    reveal_strlit("毒素手雷");
}

impl Inventory {
    /// A fresh backpack around the two given rifles: eight empty supply
    /// slots and 150 rounds in the pool.
    pub fn with_weapons(weapons: Vec<WeaponData>) -> (inv: Self)
        ensures
            inv.items@.len() == 0,
            inv.max_slots == DEFAULT_MAX_SLOTS,
            inv.weapons@ == weapons@,
            inv.max_weapons == MAX_WEAPONS,
            inv.ammo_pool == DEFAULT_AMMO_POOL,
    {
        Inventory {
            items: Vec::new(),
            max_slots: DEFAULT_MAX_SLOTS,
            weapons,
            max_weapons: MAX_WEAPONS,
            ammo_pool: DEFAULT_AMMO_POOL,
        }
    }

    /// Whether every supply slot is taken.
    pub open spec fn spec_is_full(self) -> bool {
        self.items@.len() >= self.max_slots
    }

    /// Whether every supply slot is taken.
    pub fn is_full(&self) -> (b: bool)
        ensures
            b == self.spec_is_full(),
    {
        self.items.len() >= self.max_slots
    }
}

/// Store a supply item in the backpack. A full backpack is left unchanged
/// and answers with the "backpack full" message; otherwise the item is
/// appended and the message names it.
pub fn push_supply(inventory: &mut Inventory, name: &str, item_type: PickupType) -> (msg: String)
    ensures
        old(inventory).spec_is_full() ==> *final(inventory) == *old(inventory) && msg@
            == backpack_full_message(),
        !old(inventory).spec_is_full() ==> final(inventory).items@ == old(inventory).items@.push(
            PickupItem { name: final(inventory).items@.last().name, item_type },
        ) && final(inventory).items@.last().name@ == name@ && final(inventory).max_slots
            == old(inventory).max_slots && final(inventory).weapons == old(inventory).weapons
            && final(inventory).max_weapons == old(inventory).max_weapons
            && final(inventory).ammo_pool == old(inventory).ammo_pool && msg@ == granted_message(
            name@,
        ),
        old(inventory).items@.len() <= old(inventory).max_slots ==> final(inventory).items@.len()
            <= final(inventory).max_slots,
{
    if inventory.items.len() >= inventory.max_slots {
        return "背包已满（先在背包中使用道具）".to_string();
    }
    inventory.items.push(PickupItem { name: name.to_string(), item_type });
    let mut msg = "已领取：".to_string();
    msg.append(name);
    msg
}

/// Endless supply table: row 0 adds 60 rounds to the ammo pool; rows 1..=6
/// store a medkit, an armour plate or one of the four grenades (subject to
/// free slots); any other row does nothing and answers with an empty message.
pub fn grant_supply(row: usize, inventory: &mut Inventory) -> (msg: String)
    requires
        row == 0 ==> old(inventory).ammo_pool + SUPPLY_AMMO <= i32::MAX,
    ensures
        row == 0 ==> final(inventory).ammo_pool == old(inventory).ammo_pool + SUPPLY_AMMO
            && final(inventory).items == old(inventory).items && final(inventory).weapons
            == old(inventory).weapons && final(inventory).max_slots == old(inventory).max_slots
            && final(inventory).max_weapons == old(inventory).max_weapons && msg@
            == ammo_granted_message(),
        row > 6 ==> *final(inventory) == *old(inventory) && msg@.len() == 0,
        1 <= row <= 6 ==> ({
            let (name, t) = supply_row_item(row as int).unwrap();
            &&& old(inventory).spec_is_full() ==> *final(inventory) == *old(inventory) && msg@
                == backpack_full_message()
            &&& !old(inventory).spec_is_full() ==> final(inventory).items@.len()
                == old(inventory).items@.len() + 1 && final(inventory).items@.drop_last()
                == old(inventory).items@ && final(inventory).items@.last().name@ == name
                && final(inventory).items@.last().item_type == t && final(inventory).weapons
                == old(inventory).weapons && final(inventory).ammo_pool == old(inventory).ammo_pool
                && final(inventory).max_slots == old(inventory).max_slots && msg@
                == granted_message(name)
        }),
        old(inventory).items@.len() <= old(inventory).max_slots ==> final(inventory).items@.len()
            <= final(inventory).max_slots,
{
    let ghost before = *inventory;
    match row {
        0 => {
            inventory.ammo_pool = inventory.ammo_pool + SUPPLY_AMMO;
            "已领取：步枪弹药 ×60（入弹药池）".to_string()
        },
        1 => {
            let r = push_supply(inventory, "医疗包", PickupType::Health { amount_bits: 0x41c8_0000 });
            proof {
                if !before.spec_is_full() {
                    assert(inventory.items@.drop_last() =~= before.items@);
                }
            }
            r
        },
        2 => {
            let r = push_supply(inventory, "护甲片", PickupType::Armor { amount_bits: 0x41a0_0000 });
            proof {
                if !before.spec_is_full() {
                    assert(inventory.items@.drop_last() =~= before.items@);
                }
            }
            r
        },
        3 => {
            let r = push_supply(inventory, "烈焰手雷", PickupType::Grenade { element: ElementType::Fire });
            proof {
                if !before.spec_is_full() {
                    assert(inventory.items@.drop_last() =~= before.items@);
                }
            }
            r
        },
        4 => {
            let r = push_supply(inventory, "冰霜手雷", PickupType::Grenade { element: ElementType::Ice });
            proof {
                if !before.spec_is_full() {
                    assert(inventory.items@.drop_last() =~= before.items@);
                }
            }
            r
        },
        5 => {
            let r = push_supply(
                inventory,
                "雷电手雷",
                PickupType::Grenade { element: ElementType::Electric },
            );
            proof {
                if !before.spec_is_full() {
                    assert(inventory.items@.drop_last() =~= before.items@);
                }
            }
            r
        },
        6 => {
            let r = push_supply(inventory, "毒素手雷", PickupType::Grenade { element: ElementType::Poison });
            proof {
                if !before.spec_is_full() {
                    assert(inventory.items@.drop_last() =~= before.items@);
                }
            }
            r
        },
        _ => String::new(),
    }
}

/// A grenade taken out of the backpack and held for aiming.
#[derive(Debug, Clone, PartialEq, Eq)]
pub struct HeldGrenade {
    pub item: Option<PickupItem>,
}

/// What using a backpack item does to the player.
#[derive(Debug, Clone, Copy, PartialEq, Eq, Structural)]
pub enum UseEffect {
    /// Nothing beyond consuming the item (ammunition never sits in a slot).
    Consumed,
    /// Restore health by the `f32` whose bits are given, capped at maximum health.
    Heal { amount_bits: u32 },
    /// Restore armour by the `f32` whose bits are given, capped at maximum armour.
    Repair { amount_bits: u32 },
    /// The grenade is now held for aiming.
    Held,
}

/// A backpack item that was used: its name and its effect.
#[derive(Debug, Clone, PartialEq, Eq)]
pub struct ItemUse {
    pub name: String,
    pub effect: UseEffect,
}

/// The effect of using backpack item `index`: out-of-range indices and
/// rifles change nothing; a grenade is taken out and held unless one is
/// already held (then nothing changes); any other item is consumed.
pub open spec fn item_used(
    index: int,
    items: Seq<PickupItem>,
    held: HeldGrenade,
    items2: Seq<PickupItem>,
    held2: HeldGrenade,
    r: Option<ItemUse>,
) -> bool {
    if index < 0 || index >= items.len() {
        r is None && items2 == items && held2 == held
    } else {
        let it = items[index];
        match it.item_type {
            PickupType::Weapon { .. } => r is None && items2 == items && held2 == held,
            PickupType::Grenade { .. } => if held.item is Some {
                r is None && items2 == items && held2 == held
            } else {
                held2.item == Some(it) && items2 == items.remove(index) && r == Some(
                    ItemUse { name: it.name, effect: UseEffect::Held },
                )
            },
            PickupType::Ammo { .. } => items2 == items.remove(index) && held2 == held && r == Some(
                ItemUse { name: it.name, effect: UseEffect::Consumed },
            ),
            PickupType::Health { amount_bits } => items2 == items.remove(index) && held2 == held
                && r == Some(ItemUse { name: it.name, effect: UseEffect::Heal { amount_bits } }),
            PickupType::Armor { amount_bits } => items2 == items.remove(index) && held2 == held
                && r == Some(ItemUse { name: it.name, effect: UseEffect::Repair { amount_bits } }),
        }
    }
}

/// Use backpack item `index`. Out-of-range indices and rifles do nothing; a
/// grenade is taken out and held unless one is already held (then nothing
/// happens); any other item is consumed. A used item leaves the backpack.
pub fn use_item_at(index: usize, items: &mut Vec<PickupItem>, held: &mut HeldGrenade) -> (r: Option<
    ItemUse,
>)
    ensures
        item_used(index as int, old(items)@, *old(held), final(items)@, *final(held), r),
{
    if index >= items.len() {
        return None;
    }
    let effect = match items[index].item_type {
        PickupType::Ammo { .. } => UseEffect::Consumed,
        PickupType::Health { amount_bits } => UseEffect::Heal { amount_bits },
        PickupType::Armor { amount_bits } => UseEffect::Repair { amount_bits },
        PickupType::Grenade { .. } => {
            if held.item.is_some() {
                return None;
            }
            UseEffect::Held
        },
        PickupType::Weapon { .. } => {
            return None;
        },
    };
    let item = items.remove(index);
    if let UseEffect::Held = effect {
        let name = item.name.clone();
        held.item = Some(item);
        Some(ItemUse { name, effect })
    } else {
        Some(ItemUse { name: item.name, effect })
    }
}

/// Every successful use consumes exactly the item used: the backpack
/// afterwards is the old one without entry `index` (one item fewer, the others
/// in order), the answer names that item, and its effect follows its type
/// (medkit heals, armour plate repairs, grenade is held, ammunition is just
/// consumed). A use that answers nothing changes nothing, and a rifle is
/// never used.
pub proof fn law_use_consumes_the_item(
    index: int,
    items: Seq<PickupItem>,
    held: HeldGrenade,
    items2: Seq<PickupItem>,
    held2: HeldGrenade,
    r: Option<ItemUse>,
)
    requires
        item_used(index, items, held, items2, held2, r),
    ensures
        r is None ==> items2 == items && held2 == held,
        r is Some ==> {
            &&& 0 <= index < items.len()
            &&& items2.len() + 1 == items.len()
            &&& forall|k: int| 0 <= k < index ==> items2[k] == #[trigger] items[k]
            &&& forall|k: int| index < k < items.len() ==> items2[k - 1] == #[trigger] items[k]
            &&& r.unwrap().name == items[index].name
            &&& !(items[index].item_type is Weapon)
        },
        r is Some ==> match items[index].item_type {
            PickupType::Health { amount_bits } => r.unwrap().effect == (UseEffect::Heal { amount_bits })
                && held2 == held,
            PickupType::Armor { amount_bits } => r.unwrap().effect == (UseEffect::Repair { amount_bits })
                && held2 == held,
            PickupType::Ammo { .. } => r.unwrap().effect == UseEffect::Consumed && held2 == held,
            PickupType::Grenade { .. } => r.unwrap().effect == UseEffect::Held && held.item is None
                && held2.item == Some(items[index]),
            PickupType::Weapon { .. } => false,
        },
{
}

/// Index of the first backpack item of category `cat` (quick use on a short
/// press of 3 / 4).
pub fn first_item_of_category(items: &Vec<PickupItem>, cat: ItemCategory) -> (r: Option<usize>)
    ensures
        match r {
            Some(i) => i < items@.len() && spec_category(items@[i as int].item_type) == cat
                && forall|j: int| 0 <= j < i ==> spec_category((#[trigger] items@[j]).item_type) != cat,
            None => forall|j: int|
                0 <= j < items@.len() ==> spec_category((#[trigger] items@[j]).item_type) != cat,
        },
{
    let n = items.len();
    let mut i: usize = 0;
    while i < n
        invariant
            n == items@.len(),
            i <= n,
            forall|j: int| 0 <= j < i ==> spec_category((#[trigger] items@[j]).item_type) != cat,
        decreases n - i,
    {
        if items[i].item_type.category() == cat {
            return Some(i);
        }
        i = i + 1;
    }
    None
}

/// Indices (in backpack order) of every item of category `cat`: the cards of
/// the radial item wheel.
pub fn items_of_category(items: &Vec<PickupItem>, cat: ItemCategory) -> (r: Vec<usize>)
    ensures
        r@ == Seq::new(items@.len(), |i: int| i).filter(
            |i: int| spec_category(items@[i].item_type) == cat,
        ).map_values(|i: int| i as usize),
{
    let n = items.len();
    let mut r: Vec<usize> = Vec::new();
    let mut i: usize = 0;
    let ghost all = Seq::new(items@.len(), |i: int| i);
    let ghost pred = |i: int| spec_category(items@[i].item_type) == cat;
    while i < n
        invariant
            n == items@.len(),
            i <= n,
            all == Seq::new(items@.len(), |i: int| i),
            pred == (|i: int| spec_category(items@[i].item_type) == cat),
            r@ == all.take(i as int).filter(pred).map_values(|i: int| i as usize),
        decreases n - i,
    {
        proof {
            reveal_with_fuel(Seq::<_>::filter, 1);
            assert(all.take(i + 1).drop_last() =~= all.take(i as int));
            assert(all.take(i + 1).last() == i as int);
        }
        if items[i].item_type.category() == cat {
            r.push(i);
            proof {
                assert(all.take(i + 1).filter(pred) == all.take(i as int).filter(pred).push(i as int));
            }
        }
        i = i + 1;
        proof {
            assert(r@ =~= all.take(i as int).filter(pred).map_values(|i: int| i as usize));
        }
    }
    assert(all.take(n as int) =~= all);
    r
}

/// Whether the backpack holds any item of category `cat` (the wheel only
/// opens when it does).
pub fn has_items_of_category(items: &Vec<PickupItem>, cat: ItemCategory) -> (b: bool)
    ensures
        b == exists|j: int| 0 <= j < items@.len() && spec_category((#[trigger] items@[j]).item_type) == cat,
{
    first_item_of_category(items, cat).is_some()
}

/// All fields of the backpack other than the weapon rack are unchanged.
pub open spec fn same_but_weapons(a: Inventory, b: Inventory) -> bool {
    a.items == b.items && a.max_slots == b.max_slots && a.max_weapons == b.max_weapons
        && a.ammo_pool == b.ammo_pool
}

/// All fields of the backpack other than the ammo pool are unchanged.
pub open spec fn same_but_pool(a: Inventory, b: Inventory) -> bool {
    a.items == b.items && a.max_slots == b.max_slots && a.max_weapons == b.max_weapons
        && a.weapons == b.weapons
}

/// Adding `amount` rounds to the pool does not overflow.
pub open spec fn pool_fits(inv: Inventory, amount: int) -> bool {
    i32::MIN <= inv.ammo_pool + amount <= i32::MAX
}

/// Pick up a world item (F on a pickup entry): ammunition goes into the pool,
/// a rifle replaces the one in hand (built by `make_rifle` from its element),
/// anything else takes a free slot. Returns whether the item was taken; a
/// supply item meeting a full backpack is not taken and nothing changes.
pub fn pick_up<F: Fn(ElementType) -> WeaponData>(
    inventory: &mut Inventory,
    current: usize,
    item: &PickupItem,
    make_rifle: F,
) -> (taken: bool)
    requires
        item.item_type matches PickupType::Ammo { amount } ==> pool_fits(*old(inventory), amount as int),
        item.item_type matches PickupType::Weapon { element } ==> current < old(inventory).weapons@.len()
            && make_rifle.requires((element,)),
    ensures
        match item.item_type {
            PickupType::Ammo { amount } => taken && final(inventory).ammo_pool == old(inventory).ammo_pool
                + amount && same_but_pool(*final(inventory), *old(inventory)),
            PickupType::Weapon { element } => taken && same_but_weapons(*final(inventory), *old(inventory))
                && final(inventory).weapons@.len() == old(inventory).weapons@.len() && make_rifle.ensures(
                (element,),
                final(inventory).weapons@[current as int],
            ) && forall|k: int|
                0 <= k < old(inventory).weapons@.len() && k != current ==> final(inventory).weapons@[k]
                    == old(inventory).weapons@[k],
            _ => if old(inventory).spec_is_full() {
                !taken && *final(inventory) == *old(inventory)
            } else {
                taken && final(inventory).items@ == old(inventory).items@.push(*item) && same_but_items(
                    *final(inventory),
                    *old(inventory),
                )
            },
        },
        old(inventory).items@.len() <= old(inventory).max_slots ==> final(inventory).items@.len()
            <= final(inventory).max_slots,
{
    match item.item_type {
        PickupType::Ammo { amount } => {
            inventory.ammo_pool = inventory.ammo_pool + amount;
            true
        },
        PickupType::Weapon { element } => {
            let rifle = make_rifle(element);
            inventory.weapons.set(current, rifle);
            true
        },
        _ => {
            if inventory.items.len() < inventory.max_slots {
                inventory.items.push(item.clone());
                true
            } else {
                false
            }
        },
    }
}

/// All fields of the backpack other than the supply slots are unchanged.
pub open spec fn same_but_items(a: Inventory, b: Inventory) -> bool {
    a.weapons == b.weapons && a.max_slots == b.max_slots && a.max_weapons == b.max_weapons
        && a.ammo_pool == b.ammo_pool
}

/// Rounds a reload of weapon `w` moves from the pool: enough to fill the
/// magazine, at most what the pool holds; nothing when the magazine is full.
pub open spec fn reload_take(w: WeaponData, pool: int) -> int {
    let needed = w.max_ammo - w.ammo;
    if needed > 0 {
        if needed <= pool {
            needed
        } else {
            pool
        }
    } else {
        0
    }
}

/// The reload arithmetic of weapon `widx` stays within `i32`.
pub open spec fn reload_fits(inv: Inventory, widx: int) -> bool {
    let w = inv.weapons@[widx];
    &&& i32::MIN <= w.max_ammo - w.ammo <= i32::MAX
    &&& i32::MIN <= w.ammo + reload_take(w, inv.ammo_pool as int)
}

/// Finish a reload of weapon `widx`: move `reload_take` rounds from the pool
/// into the magazine. A reload never creates or destroys rounds, never
/// overfills the magazine nor overdraws a non-negative pool, and fills the
/// magazine whenever the pool holds enough rounds.
pub fn finish_reload(inventory: &mut Inventory, widx: usize)
    requires
        widx < old(inventory).weapons@.len(),
        reload_fits(*old(inventory), widx as int),
    ensures
        ({
            let w = old(inventory).weapons@[widx as int];
            let take = reload_take(w, old(inventory).ammo_pool as int);
            &&& final(inventory).ammo_pool == old(inventory).ammo_pool - take
            &&& final(inventory).weapons@ == old(inventory).weapons@.update(
                widx as int,
                WeaponData { ammo: (w.ammo + take) as i32, ..w },
            )
            &&& final(inventory).items == old(inventory).items
            &&& final(inventory).max_slots == old(inventory).max_slots
            &&& final(inventory).max_weapons == old(inventory).max_weapons
        }),
        final(inventory).weapons@[widx as int].ammo + final(inventory).ammo_pool
            == old(inventory).weapons@[widx as int].ammo + old(inventory).ammo_pool,
        old(inventory).weapons@[widx as int].ammo <= old(inventory).weapons@[widx as int].max_ammo
            ==> final(inventory).weapons@[widx as int].ammo
            <= final(inventory).weapons@[widx as int].max_ammo,
        old(inventory).ammo_pool >= 0 ==> final(inventory).ammo_pool >= 0,
        old(inventory).ammo_pool >= old(inventory).weapons@[widx as int].max_ammo
            - old(inventory).weapons@[widx as int].ammo
            ==> final(inventory).weapons@[widx as int].ammo
            >= final(inventory).weapons@[widx as int].max_ammo,
{
    let needed = inventory.weapons[widx].max_ammo - inventory.weapons[widx].ammo;
    if needed > 0 {
        let take = if needed <= inventory.ammo_pool {
            needed
        } else {
            inventory.ammo_pool
        };
        let mut w = inventory.weapons[widx].clone();
        w.ammo = w.ammo + take;
        inventory.weapons.set(widx, w);
        inventory.ammo_pool = inventory.ammo_pool - take;
    }
}

/// A reload can start (R) when the magazine is not full and the pool holds rounds.
pub fn can_start_reload(inventory: &Inventory, widx: usize) -> (b: bool)
    requires
        widx < inventory.weapons@.len(),
    ensures
        b == (inventory.weapons@[widx as int].ammo < inventory.weapons@[widx as int].max_ammo
            && inventory.ammo_pool > 0),
{
    inventory.weapons[widx].ammo < inventory.weapons[widx].max_ammo && inventory.ammo_pool > 0
}

/// Outcome of pulling the trigger.
#[derive(Debug, Clone, Copy, PartialEq, Eq, Structural)]
pub enum FireOutcome {
    /// One round left the magazine.
    Fired,
    /// The magazine is empty; a reload starts automatically when the pool holds rounds.
    Empty { auto_reload: bool },
}

/// Fire weapon `widx` once: an empty magazine fires nothing, otherwise one
/// round is spent.
pub fn fire(inventory: &mut Inventory, widx: usize) -> (o: FireOutcome)
    requires
        widx < old(inventory).weapons@.len(),
    ensures
        ({
            let w = old(inventory).weapons@[widx as int];
            if w.ammo <= 0 {
                o == FireOutcome::Empty { auto_reload: old(inventory).ammo_pool > 0 } && *final(inventory)
                    == *old(inventory)
            } else {
                o == FireOutcome::Fired && final(inventory).weapons@ == old(inventory).weapons@.update(
                    widx as int,
                    WeaponData { ammo: (w.ammo - 1) as i32, ..w },
                ) && same_but_weapons(*final(inventory), *old(inventory))
            }
        }),
{
    if inventory.weapons[widx].ammo <= 0 {
        return FireOutcome::Empty { auto_reload: inventory.ammo_pool > 0 };
    }
    let mut w = inventory.weapons[widx].clone();
    w.ammo = w.ammo - 1;
    inventory.weapons.set(widx, w);
    FireOutcome::Fired
}

/// Number of items of category `cat` among the first `n` items.
pub open spec fn count_category(items: Seq<PickupItem>, cat: ItemCategory, n: int) -> nat
    decreases n,
{
    if n <= 0 {
        0
    } else {
        count_category(items, cat, n - 1) + if spec_category(items[n - 1].item_type) == cat {
            1nat
        } else {
            0nat
        }
    }
}

/// Items per quick-use category (recovery, tactical) for the bottom HUD
/// icons; together they count every item.
pub fn category_counts(items: &Vec<PickupItem>) -> (counts: (usize, usize))
    ensures
        counts.0 == count_category(items@, ItemCategory::Consumable, items@.len() as int),
        counts.1 == count_category(items@, ItemCategory::Tactical, items@.len() as int),
        counts.0 + counts.1 == items@.len(),
{
    let n = items.len();
    let mut recovery: usize = 0;
    let mut tactical: usize = 0;
    let mut i: usize = 0;
    while i < n
        invariant
            n == items@.len(),
            i <= n,
            recovery == count_category(items@, ItemCategory::Consumable, i as int),
            tactical == count_category(items@, ItemCategory::Tactical, i as int),
            recovery + tactical == i,
        decreases n - i,
    {
        match items[i].item_type.category() {
            ItemCategory::Consumable => {
                recovery = recovery + 1;
            },
            ItemCategory::Tactical => {
                tactical = tactical + 1;
            },
        }
        i = i + 1;
    }
    (recovery, tactical)
}

} // verus!
