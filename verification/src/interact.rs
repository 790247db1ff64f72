//! The unified interact menu (F): the nearby station first, then nearby
//! pickups by distance; a fixed-height list with a scroll window that follows
//! the selection.

use vstd::prelude::*;
use crate::inventory::{Inventory, PickupItem, PickupType};

verus! {

/// Rows visible at once in the fixed-height menu.
pub const INTERACT_MENU_VISIBLE_ROWS: usize = 8;

/// Entries the menu keeps at most (the rest are dropped).
pub const INTERACT_MENU_MAX_ENTRIES: usize = 16;

/// Kind of an interactive station in the level.
#[derive(Debug, Clone, Copy, PartialEq, Eq, Structural)]
pub enum StationKind {
    /// Endless supply table.
    SupplyTable,
    /// Operator switching desk.
    OperatorDesk,
    /// In-match supply crate.
    SupplyCrate,
}

/// One menu entry: a pickup (by entity id) or a station.
#[derive(Debug, PartialEq, Eq)]
pub enum InteractEntry {
    Pickup(u64),
    Station { kind: StationKind, label: String, entity: u64 },
}

impl Clone for InteractEntry {
    fn clone(&self) -> (c: Self)
        ensures
            c == *self,
    {
        match self {
            InteractEntry::Pickup(id) => InteractEntry::Pickup(*id),
            InteractEntry::Station { kind, label, entity } => InteractEntry::Station {
                kind: *kind,
                label: label.clone(),
                entity: *entity,
            },
        }
    }
}

/// Interact menu state: entries, selected entry and first visible row.
#[derive(Debug, PartialEq, Eq)]
pub struct NearbyInteract {
    pub entries: Vec<InteractEntry>,
    pub selected: usize,
    pub scroll_start: usize,
}

impl Default for NearbyInteract {
    fn default() -> (m: Self)
        ensures
            m.entries@.len() == 0,
            m.selected == 0,
            m.scroll_start == 0,
    {
        NearbyInteract { entries: Vec::new(), selected: 0, scroll_start: 0 }
    }
}

/// Direction of one mouse-wheel event.
#[derive(Debug, Clone, Copy, PartialEq, Eq, Structural)]
pub enum ScrollDirection {
    Up,
    Down,
    Still,
}

/// Largest first visible row for `len` entries.
pub open spec fn max_scroll_start(len: int) -> int {
    if len > INTERACT_MENU_VISIBLE_ROWS {
        len - INTERACT_MENU_VISIBLE_ROWS
    } else {
        0
    }
}

/// The scroll window does not run past the end of the list.
pub open spec fn window_in_range(m: NearbyInteract) -> bool {
    m.scroll_start <= max_scroll_start(m.entries@.len() as int)
}

/// With entries present, the selection is a real entry inside the visible window.
pub open spec fn selection_visible(m: NearbyInteract) -> bool {
    m.entries@.len() > 0 ==> m.selected < m.entries@.len() && m.scroll_start <= m.selected
        < m.scroll_start + INTERACT_MENU_VISIBLE_ROWS
}

/// The entry is the pickup `entity`.
pub open spec fn is_pickup_of(e: InteractEntry, entity: u64) -> bool {
    e matches InteractEntry::Pickup(id) && id == entity
}

fn max_scroll_start_of(len: usize) -> (r: usize)
    ensures
        r == max_scroll_start(len as int),
{
    if len > INTERACT_MENU_VISIBLE_ROWS {
        len - INTERACT_MENU_VISIBLE_ROWS
    } else {
        0
    }
}

impl NearbyInteract {
    /// Pull the window start back inside the list.
    pub fn clamp_window(&mut self)
        ensures
            final(self).entries == old(self).entries,
            final(self).selected == old(self).selected,
            final(self).scroll_start == if old(self).scroll_start <= max_scroll_start(
                old(self).entries@.len() as int,
            ) {
                old(self).scroll_start as int
            } else {
                max_scroll_start(old(self).entries@.len() as int)
            },
            window_in_range(*final(self)),
            selection_visible(*old(self)) ==> selection_visible(*final(self)),
    {
        let m = max_scroll_start_of(self.entries.len());
        if self.scroll_start > m {
            self.scroll_start = m;
        }
    }

    /// Install the freshly detected entries (station first, pickups by
    /// distance), keeping at most 16. A selection past the end jumps back to
    /// the first entry together with the window; the window is then clamped.
    pub fn refresh(&mut self, entries: Vec<InteractEntry>)
        ensures
            final(self).entries@ == if entries@.len() > INTERACT_MENU_MAX_ENTRIES {
                entries@.take(INTERACT_MENU_MAX_ENTRIES as int)
            } else {
                entries@
            },
            ({
                let len = final(self).entries@.len();
                let reset = old(self).selected >= len && len > 0;
                let s0 = if reset {
                    0
                } else {
                    old(self).scroll_start as int
                };
                &&& final(self).selected == if reset {
                    0
                } else {
                    old(self).selected
                }
                &&& final(self).scroll_start == if s0 <= max_scroll_start(len as int) {
                    s0
                } else {
                    max_scroll_start(len as int)
                }
            }),
            window_in_range(*final(self)),
            final(self).entries@.len() > 0 ==> final(self).selected < final(self).entries@.len(),
            old(self).entries@.len() > 0 && selection_visible(*old(self)) ==> selection_visible(
                *final(self),
            ),
    {
        let mut entries = entries;
        entries.truncate(INTERACT_MENU_MAX_ENTRIES);
        self.entries = entries;
        if self.selected >= self.entries.len() && self.entries.len() > 0 {
            self.selected = 0;
            self.scroll_start = 0;
        }
        self.clamp_window();
    }

    /// One mouse-wheel event (a list of at most one entry does not scroll):
    /// up selects the previous entry, down the next, both wrapping around;
    /// the window then moves as little as needed to show the selection.
    pub fn scroll_step(&mut self, dir: ScrollDirection)
        requires
            old(self).selected + old(self).entries@.len() <= usize::MAX,
            old(self).scroll_start + INTERACT_MENU_VISIBLE_ROWS <= usize::MAX,
        ensures
            final(self).entries == old(self).entries,
            ({
                let len = old(self).entries@.len() as int;
                let sel = if len <= 1 {
                    old(self).selected as int
                } else {
                    match dir {
                        ScrollDirection::Up => (old(self).selected + len - 1) % len,
                        ScrollDirection::Down => (old(self).selected + 1) % len,
                        ScrollDirection::Still => old(self).selected as int,
                    }
                };
                let s = old(self).scroll_start as int;
                &&& final(self).selected == sel
                &&& final(self).scroll_start == if len <= 1 {
                    s
                } else if sel < s {
                    sel
                } else if sel >= s + INTERACT_MENU_VISIBLE_ROWS {
                    sel + 1 - INTERACT_MENU_VISIBLE_ROWS
                } else {
                    s
                }
            }),
            old(self).entries@.len() > 1 && (dir != ScrollDirection::Still || old(self).selected
                < old(self).entries@.len()) ==> selection_visible(*final(self)),
            old(self).entries@.len() > 1 && window_in_range(*old(self)) && (dir
                != ScrollDirection::Still || old(self).selected < old(self).entries@.len())
                ==> window_in_range(
                *final(self),
            ),
    {
        let len = self.entries.len();
        if len <= 1 {
            return;
        }
        match dir {
            ScrollDirection::Up => {
                let x = self.selected + len - 1;
                assert(x % len < len) by (nonlinear_arith)
                    requires
                        len > 1,
                ;
                self.selected = x % len;
            },
            ScrollDirection::Down => {
                let x = self.selected + 1;
                assert(x % len < len) by (nonlinear_arith)
                    requires
                        len > 1,
                ;
                self.selected = x % len;
            },
            ScrollDirection::Still => {},
        }
        if self.selected < self.scroll_start {
            self.scroll_start = self.selected;
        } else if self.selected >= self.scroll_start + INTERACT_MENU_VISIBLE_ROWS {
            self.scroll_start = self.selected + 1 - INTERACT_MENU_VISIBLE_ROWS;
        }
    }

    /// The selected entry, if any.
    pub fn selected_entry(&self) -> (r: Option<&InteractEntry>)
        ensures
            r == if self.selected < self.entries@.len() {
                Some(&self.entries@[self.selected as int])
            } else {
                None
            },
    {
        if self.selected < self.entries.len() {
            Some(&self.entries[self.selected])
        } else {
            None
        }
    }

    /// A pickup was taken: drop its entries, keep the selection on a real
    /// entry (the last one if it fell off the end) and clamp the window so the
    /// selection stays visible.
    pub fn remove_pickup(&mut self, entity: u64)
        ensures
            final(self).entries@ == old(self).entries@.filter(|e: InteractEntry| !is_pickup_of(e, entity)),
            ({
                let len = final(self).entries@.len() as int;
                let sel = if old(self).selected >= len && len > 0 {
                    len - 1
                } else {
                    old(self).selected as int
                };
                let s = old(self).scroll_start as int;
                let s1 = if s <= max_scroll_start(len) {
                    s
                } else {
                    max_scroll_start(len)
                };
                &&& final(self).selected == sel
                &&& final(self).scroll_start == if s1 <= sel {
                    s1
                } else {
                    sel
                }
            }),
            window_in_range(*final(self)),
            final(self).entries@.len() > 0 ==> final(self).selected < final(self).entries@.len(),
            old(self).entries@.len() > 0 && selection_visible(*old(self)) ==> selection_visible(
                *final(self),
            ),
    {
        let ghost pred = |e: InteractEntry| !is_pickup_of(e, entity);
        let ghost old_entries = self.entries@;
        let mut kept: Vec<InteractEntry> = Vec::new();
        let n = self.entries.len();
        let mut i: usize = 0;
        while i < n
            invariant
                n == self.entries@.len(),
                self.entries@ == old_entries,
                i <= n,
                pred == (|e: InteractEntry| !is_pickup_of(e, entity)),
                kept@ == old_entries.take(i as int).filter(pred),
            decreases n - i,
        {
            proof {
                reveal_with_fuel(Seq::<_>::filter, 1);
                assert(old_entries.take(i + 1).drop_last() =~= old_entries.take(i as int));
            }
            let drop = match &self.entries[i] {
                InteractEntry::Pickup(id) => *id == entity,
                _ => false,
            };
            if !drop {
                kept.push(self.entries[i].clone());
            }
            i = i + 1;
        }
        assert(old_entries.take(n as int) =~= old_entries);
        proof {
            lemma_filter_len_le(old_entries, pred);
        }
        self.entries = kept;
        let len = self.entries.len();
        if self.selected >= len && len > 0 {
            self.selected = len - 1;
        }
        let m = max_scroll_start_of(len);
        if self.scroll_start > m {
            self.scroll_start = m;
        }
        if self.scroll_start > self.selected {
            self.scroll_start = self.selected;
        }
    }
}

/// The menu is shown when it has entries and no other UI holds the cursor
/// (cursor locked, wheel idle, no grenade held).
pub fn menu_shown(nearby: &NearbyInteract, cursor_locked: bool, wheel_busy: bool, holding_grenade: bool) -> (b:
    bool)
    ensures
        b == (nearby.entries@.len() > 0 && cursor_locked && !wheel_busy && !holding_grenade),
{
    nearby.entries.len() > 0 && cursor_locked && !wheel_busy && !holding_grenade
}

/// Entry shown in visible row `row` (the window start is clamped for display),
/// or `None` for an empty row.
pub fn row_entry_index(nearby: &NearbyInteract, row: usize) -> (r: Option<usize>)
    requires
        row < INTERACT_MENU_VISIBLE_ROWS,
    ensures
        ({
            let start = if nearby.scroll_start <= max_scroll_start(nearby.entries@.len() as int) {
                nearby.scroll_start as int
            } else {
                max_scroll_start(nearby.entries@.len() as int)
            };
            r == if start + row < nearby.entries@.len() {
                Some((start + row) as usize)
            } else {
                None
            }
        }),
{
    let max_start = max_scroll_start_of(nearby.entries.len());
    let start = if nearby.scroll_start <= max_start {
        nearby.scroll_start
    } else {
        max_start
    };
    if start < nearby.entries.len() && row < nearby.entries.len() - start {
        Some(start + row)
    } else {
        None
    }
}

/// The scroll bar is shown only when the entries overflow the visible rows.
pub fn scrollbar_shown(nearby: &NearbyInteract, shown: bool) -> (b: bool)
    ensures
        b == (shown && nearby.entries@.len() > INTERACT_MENU_VISIBLE_ROWS),
{
    shown && nearby.entries.len() > INTERACT_MENU_VISIBLE_ROWS
}

/// Default hint line of the interact menu.
pub open spec fn default_hint() -> Seq<char> {
    "滚轮选择 · F 确认"@
}

/// Hint line under the menu: empty while hidden; otherwise the controls, or a
/// warning about the selected pickup `selected_pickup`: a rifle when the rack
/// is full replaces the rifle in hand (named), a supply meets a full backpack;
/// ammunition never warns.
pub fn interact_hint(shown: bool, selected_pickup: Option<&PickupItem>, inventory: &Inventory, current: usize) -> (s:
    String)
    requires
        shown && (selected_pickup matches Some(p) && p.item_type is Weapon) && inventory.weapons@.len()
            >= inventory.max_weapons ==> current < inventory.weapons@.len(),
    ensures
        !shown ==> s@.len() == 0,
        shown ==> s@ == match selected_pickup {
            Some(p) => match p.item_type {
                PickupType::Weapon { .. } => if inventory.weapons@.len() >= inventory.max_weapons {
                    "将替换当前武器 "@ + inventory.weapons@[current as int].name@
                } else {
                    default_hint()
                },
                PickupType::Ammo { .. } => default_hint(),
                _ => if inventory.items@.len() >= inventory.max_slots {
                    "背包已满"@
                } else {
                    default_hint()
                },
            },
            None => default_hint(),
        },
{
    if !shown {
        return String::new();
    }
    if let Some(p) = selected_pickup {
        match p.item_type {
            PickupType::Weapon { .. } => {
                if inventory.weapons.len() >= inventory.max_weapons {
                    let mut msg = "将替换当前武器 ".to_string();
                    msg.append(inventory.weapons[current].name.as_str());
                    return msg;
                }
            },
            PickupType::Ammo { .. } => {},
            _ => {
                if inventory.items.len() >= inventory.max_slots {
                    return "背包已满".to_string();
                }
            },
        }
    }
    "滚轮选择 · F 确认".to_string()
}

/// Filtering never lengthens a sequence.
proof fn lemma_filter_len_le<A>(s: Seq<A>, pred: spec_fn(A) -> bool)
    ensures
        s.filter(pred).len() <= s.len(),
    decreases s.len(),
{
    reveal_with_fuel(Seq::<_>::filter, 1);
    if s.len() > 0 {
        lemma_filter_len_le(s.drop_last(), pred);
    }
}

} // verus!
