//! The radial item wheel (keys 3 / 4): a short press quick-uses the first
//! item of the key's category, a long press opens a wheel of that category's
//! items, and releasing the key uses the item under the pointer. Returning the
//! pointer to the centre, or clicking the centre "cancel" button, uses nothing.
//!
//! A frame runs the four phases in order: `wheel_close`, `wheel_press`,
//! `wheel_pending`, `wheel_refresh`. Timing (how long the key was held, how
//! long the wheel was open) and pointer geometry are measured by the caller
//! and handed in as booleans and a card index.

use vstd::prelude::*;
use crate::inventory::{
    HeldGrenade, ItemCategory, ItemUse, PickupItem, first_item_of_category, has_items_of_category,
    items_of_category, item_used, spec_category, use_item_at,
};

verus! {

/// The two wheel keys.
#[derive(Debug, Clone, Copy, PartialEq, Eq, Structural)]
pub enum WheelKey {
    /// Key 3: recovery items.
    Recovery,
    /// Key 4: tactical items.
    Tactical,
}

/// Item category of a wheel key.
pub open spec fn key_category(k: WheelKey) -> ItemCategory {
    match k {
        WheelKey::Recovery => ItemCategory::Consumable,
        WheelKey::Tactical => ItemCategory::Tactical,
    }
}

fn category_of_key(k: WheelKey) -> (c: ItemCategory)
    ensures
        c == key_category(k),
{
    match k {
        WheelKey::Recovery => ItemCategory::Consumable,
        WheelKey::Tactical => ItemCategory::Tactical,
    }
}

/// Wheel state: open or not, the key pressed but not yet decided, the
/// category shown, the backpack indices of its cards and the selected card.
#[derive(Debug, PartialEq, Eq)]
pub struct WheelState {
    pub open: bool,
    pub pending_key: Option<WheelKey>,
    pub category: ItemCategory,
    pub filtered: Vec<usize>,
    pub selected: Option<usize>,
}

impl Default for WheelState {
    fn default() -> (w: Self)
        ensures
            !w.open,
            w.pending_key is None,
            w.category == ItemCategory::Consumable,
            w.filtered@.len() == 0,
            w.selected is None,
    {
        WheelState {
            open: false,
            pending_key: None,
            category: ItemCategory::Consumable,
            filtered: Vec::new(),
            selected: None,
        }
    }
}

/// The wheel is busy (open, or a key press is being decided): other panels
/// keep their hands off the keyboard and cursor.
pub fn wheel_busy(state: &WheelState) -> (b: bool)
    ensures
        b == (state.open || state.pending_key is Some),
{
    state.open || state.pending_key.is_some()
}

/// Phase 1 of a frame: an open wheel closes when forced (Esc, focus lost,
/// timeout) or when its key is no longer held. Only a normal release with a
/// card selected uses that card's backpack item. Closing clears the selection
/// and locks the cursor.
pub fn wheel_close(
    state: &mut WheelState,
    items: &mut Vec<PickupItem>,
    held: &mut HeldGrenade,
    cursor_locked: &mut bool,
    force_cancel: bool,
    key_pressed: bool,
    key_released: bool,
) -> (used: Option<ItemUse>)
    ensures
        !old(state).open || (!force_cancel && key_pressed) ==> *final(state) == *old(state)
            && final(items)@ == old(items)@ && *final(held) == *old(held) && *final(cursor_locked)
            == *old(cursor_locked) && used is None,
        old(state).open && (force_cancel || !key_pressed) ==> ({
            &&& !final(state).open
            &&& final(state).selected is None
            &&& final(state).pending_key == old(state).pending_key
            &&& final(state).category == old(state).category
            &&& final(state).filtered == old(state).filtered
            &&& *final(cursor_locked)
            &&& if !force_cancel && key_released && (old(state).selected matches Some(sel) && sel
                < old(state).filtered@.len()) {
                item_used(
                    old(state).filtered@[old(state).selected.unwrap() as int] as int,
                    old(items)@,
                    *old(held),
                    final(items)@,
                    *final(held),
                    used,
                )
            } else {
                final(items)@ == old(items)@ && *final(held) == *old(held) && used is None
            }
        }),
{
    if !state.open || (!force_cancel && key_pressed) {
        return None;
    }
    let mut used = None;
    let confirmed = !force_cancel && key_released;
    if confirmed {
        if let Some(sel) = state.selected {
            if sel < state.filtered.len() {
                let inv_idx = state.filtered[sel];
                used = use_item_at(inv_idx, items, held);
            }
        }
    }
    state.open = false;
    state.selected = None;
    *cursor_locked = true;
    used
}

/// Phase 2: with the wheel closed, nothing pending and the cursor locked, a
/// fresh press of 3 (checked first) or 4 becomes the pending key. Returns
/// whether a press started (the caller then restarts its hold timer).
pub fn wheel_press(state: &mut WheelState, cursor_locked: bool, key3_pressed: bool, key4_pressed: bool) -> (started:
    bool)
    ensures
        started == (!old(state).open && old(state).pending_key is None && cursor_locked && (
        key3_pressed || key4_pressed)),
        started ==> final(state).pending_key == Some(
            if key3_pressed {
                WheelKey::Recovery
            } else {
                WheelKey::Tactical
            },
        ),
        final(state).open == old(state).open,
        final(state).category == old(state).category,
        final(state).filtered == old(state).filtered,
        final(state).selected == old(state).selected,
        !started ==> final(state).pending_key == old(state).pending_key,
{
    if !state.open && state.pending_key.is_none() && cursor_locked {
        if key3_pressed {
            state.pending_key = Some(WheelKey::Recovery);
            return true;
        } else if key4_pressed {
            state.pending_key = Some(WheelKey::Tactical);
            return true;
        }
    }
    false
}

/// What phase 3 decided about a pending key press.
#[derive(Debug, PartialEq, Eq)]
pub enum PendingOutcome {
    /// No key press is pending; the frame goes on.
    Idle,
    /// Another panel took the cursor: the press is dropped; the frame ends.
    Abandoned,
    /// Short press: the first item of the category was used (if any); the frame ends.
    QuickUsed(Option<ItemUse>),
    /// Long press: the wheel opened (cursor freed); the frame goes on.
    Opened,
    /// Long press with no item of the category: nothing opens; the frame goes on.
    NothingToShow,
    /// Still deciding between a short and a long press; the frame ends.
    Waiting,
}

/// Phase 3: decide a pending press. A released key quick-uses the first
/// backpack item of its category; a key held past the delay (`hold_reached`)
/// opens the wheel on that category, but only when it has items. A press is
/// dropped when another panel freed the cursor meanwhile.
pub fn wheel_pending(
    state: &mut WheelState,
    items: &mut Vec<PickupItem>,
    held: &mut HeldGrenade,
    cursor_locked: &mut bool,
    key_released: bool,
    hold_reached: bool,
) -> (o: PendingOutcome)
    ensures
        old(state).pending_key is None ==> o == PendingOutcome::Idle && *final(state) == *old(state)
            && final(items)@ == old(items)@ && *final(held) == *old(held) && *final(cursor_locked)
            == *old(cursor_locked),
        old(state).pending_key matches Some(key) ==> ({
            let cat = key_category(key);
            let has = exists|j: int|
                0 <= j < old(items)@.len() && spec_category((#[trigger] old(items)@[j]).item_type) == cat;
            if !*old(cursor_locked) {
                o == PendingOutcome::Abandoned && final(state).pending_key is None
                    && final(state).open == old(state).open && final(items)@ == old(items)@
                    && *final(held) == *old(held) && !*final(cursor_locked)
            } else if key_released {
                &&& final(state).pending_key is None
                &&& final(state).open == old(state).open
                &&& *final(cursor_locked)
                &&& o matches PendingOutcome::QuickUsed(used)
                &&& if has {
                    exists|i: int|
                        0 <= i < old(items)@.len() && spec_category(old(items)@[i].item_type) == cat
                            && (forall|j: int|
                            0 <= j < i ==> spec_category((#[trigger] old(items)@[j]).item_type) != cat)
                            && item_used(i, old(items)@, *old(held), final(items)@, *final(held), used)
                } else {
                    used is None && final(items)@ == old(items)@ && *final(held) == *old(held)
                }
            } else if hold_reached {
                &&& final(state).pending_key is None
                &&& final(items)@ == old(items)@
                &&& *final(held) == *old(held)
                &&& if has {
                    o == PendingOutcome::Opened && final(state).open && final(state).category == cat
                        && final(state).selected is None && !*final(cursor_locked)
                } else {
                    o == PendingOutcome::NothingToShow && final(state).open == old(state).open
                        && *final(cursor_locked) == *old(cursor_locked)
                }
            } else {
                o == PendingOutcome::Waiting && *final(state) == *old(state) && final(items)@
                    == old(items)@ && *final(held) == *old(held) && *final(cursor_locked)
                    == *old(cursor_locked)
            }
        }),
{
    let key = match state.pending_key {
        None => {
            return PendingOutcome::Idle;
        },
        Some(k) => k,
    };
    if !*cursor_locked {
        state.pending_key = None;
        return PendingOutcome::Abandoned;
    }
    let cat = category_of_key(key);
    if key_released {
        state.pending_key = None;
        match first_item_of_category(items, cat) {
            Some(idx) => {
                let used = use_item_at(idx, items, held);
                return PendingOutcome::QuickUsed(used);
            },
            None => {
                return PendingOutcome::QuickUsed(None);
            },
        }
    } else if hold_reached {
        state.pending_key = None;
        if has_items_of_category(items, cat) {
            state.open = true;
            state.category = cat;
            state.selected = None;
            *cursor_locked = false;
            PendingOutcome::Opened
        } else {
            PendingOutcome::NothingToShow
        }
    } else {
        PendingOutcome::Waiting
    }
}

/// Where the pointer is, as measured by the caller.
#[derive(Debug, Clone, Copy, PartialEq, Eq, Structural)]
pub enum PointerPick {
    /// No cursor position this frame: the selection stays.
    Unknown,
    /// Within the central dead zone: nothing is selected (release = cancel).
    Center,
    /// Outside the dead zone, nearest to card `i`.
    Card(usize),
}

/// Phase 4 (wheel open): the cards are the category's items in backpack
/// order; with none left the wheel closes. Clicking the centre cancel button
/// closes it without using anything. Otherwise the pointer picks the card
/// (none while hovering the cancel button). Returns whether the wheel is
/// still shown.
pub fn wheel_refresh(
    state: &mut WheelState,
    items: &Vec<PickupItem>,
    cursor_locked: &mut bool,
    hover_cancel: bool,
    cancel_clicked: bool,
    pointer: PointerPick,
) -> (shown: bool)
    ensures
        !old(state).open ==> !shown && *final(state) == *old(state) && *final(cursor_locked) == *old(
            cursor_locked,
        ),
        old(state).open ==> ({
            let cards = Seq::new(items@.len(), |i: int| i).filter(
                |i: int| spec_category(items@[i].item_type) == old(state).category,
            ).map_values(|i: int| i as usize);
            &&& final(state).filtered@ == cards
            &&& final(state).pending_key == old(state).pending_key
            &&& final(state).category == old(state).category
            &&& if cards.len() == 0 {
                !shown && !final(state).open && *final(cursor_locked) && final(state).selected
                    == old(state).selected
            } else if hover_cancel && cancel_clicked {
                !shown && !final(state).open && *final(cursor_locked) && final(state).selected is None
            } else {
                shown && final(state).open && *final(cursor_locked) == *old(cursor_locked)
                    && final(state).selected == match pointer {
                    PointerPick::Unknown => old(state).selected,
                    PointerPick::Center => None,
                    PointerPick::Card(i) => if hover_cancel {
                        None
                    } else {
                        Some(i)
                    },
                }
            }
        }),
{
    if !state.open {
        return false;
    }
    state.filtered = items_of_category(items, state.category);
    if state.filtered.len() == 0 {
        state.open = false;
        *cursor_locked = true;
        return false;
    }
    if hover_cancel && cancel_clicked {
        state.open = false;
        state.selected = None;
        *cursor_locked = true;
        return false;
    }
    match pointer {
        PointerPick::Unknown => {},
        PointerPick::Center => {
            state.selected = None;
        },
        PointerPick::Card(i) => {
            state.selected = if hover_cancel {
                None
            } else {
                Some(i)
            };
        },
    }
    true
}

} // verus!
