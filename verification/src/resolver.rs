//! What a click on a slot does, given what the pointer holds.
//!
//! The held-item register is idle while `is_selected` is false and engaged
//! while it is true. An idle click on an occupied slot picks its item up. An
//! engaged click stacks the held item onto the slot, places it into the slot,
//! or swaps the two, tried in that order. Every other click changes nothing,
//! and no click fails: a pile that would outgrow the 32 bits of a quantity is
//! not made, and the click is absorbed like any other that does not apply.

use vstd::prelude::*;
use crate::slot::{InventorySlot, SlotView};

verus! {

/// The register and the clicked slot, side by side.
pub struct SlotPair {
    pub held: SlotView,
    pub target: SlotView,
}

/// The held item goes onto the target's pile: the target is occupied by an
/// item of the same name, and the held item stacks. Whether the target's own
/// item stacks is not asked.
pub open spec fn stacks(held: SlotView, target: SlotView) -> bool {
    !target.is_empty && held.item_name == target.item_name && held.can_stack
}

/// Register and target trade item data and emptiness, and the register
/// becomes engaged. The target's selection flag is not touched.
pub open spec fn picked_up(held: SlotView, target: SlotView) -> SlotPair {
    SlotPair {
        held: SlotView { is_empty: target.is_empty, is_selected: true, ..held.with_item_of(target) },
        target: SlotView { is_empty: held.is_empty, ..target.with_item_of(held) },
    }
}

/// The two quantities can be piled up: their sum still is a quantity. This is
/// the only limit on a pile.
pub open spec fn pile_fits(held: SlotView, target: SlotView) -> bool {
    held.item_quantity + target.item_quantity <= u32::MAX
}

/// The held quantity is added to the target's, and the register returns to
/// its empty, idle state.
pub open spec fn stacked(held: SlotView, target: SlotView) -> SlotPair {
    SlotPair {
        held: SlotView::empty(),
        target: SlotView { item_quantity: held.item_quantity + target.item_quantity, ..target },
    }
}

/// The target takes the held item and counts as occupied, and the register
/// returns to its empty, idle state.
pub open spec fn placed(held: SlotView, target: SlotView) -> SlotPair {
    SlotPair {
        held: SlotView::empty(),
        target: SlotView { is_empty: false, ..target.with_item_of(held) },
    }
}

/// Register and target trade item data and both count as occupied. The
/// selection flags stay, so an engaged register goes on holding what came out
/// of the target.
pub open spec fn swapped(held: SlotView, target: SlotView) -> SlotPair {
    SlotPair {
        held: SlotView { is_empty: false, ..held.with_item_of(target) },
        target: SlotView { is_empty: false, ..target.with_item_of(held) },
    }
}

/// Handing the held item over to the target: a placement, unless the register
/// is empty, in which case nothing moves.
pub open spec fn item_transferred(held: SlotView, target: SlotView) -> SlotPair {
    if held.is_empty {
        SlotPair { held, target }
    } else {
        placed(held, target)
    }
}

/// A click while engaged. An empty register absorbs the click. Otherwise the
/// first that applies: stack, place into an empty target, swap. Where the
/// held item stacks but the pile would not fit, the click is absorbed too:
/// nothing moves, and the register goes on holding its item.
pub open spec fn engaged_click(held: SlotView, target: SlotView) -> SlotPair {
    if held.is_empty {
        SlotPair { held, target }
    } else if stacks(held, target) {
        if pile_fits(held, target) {
            stacked(held, target)
        } else {
            SlotPair { held, target }
        }
    } else if target.is_empty {
        placed(held, target)
    } else {
        swapped(held, target)
    }
}

/// A click on `target` with `held` on the pointer. While idle, an occupied
/// target is picked up and an empty one absorbs the click; while engaged,
/// see [`engaged_click`].
pub open spec fn click(held: SlotView, target: SlotView) -> SlotPair {
    if held.is_selected {
        engaged_click(held, target)
    } else if !target.is_empty {
        picked_up(held, target)
    } else {
        SlotPair { held, target }
    }
}

/// False of the one click that is absorbed for want of room: an engaged
/// click that would stack a pile that does not fit.
pub open spec fn click_fits(held: SlotView, target: SlotView) -> bool {
    held.is_selected && !held.is_empty && stacks(held, target) ==> pile_fits(held, target)
}

/// Tells whether a click on `inventory_slot` would find room, without
/// making it: false exactly where [`on_slot_clicked`] would leave a pile
/// unmade because it does not fit.
pub fn check_click_fits(inventory_slot: &InventorySlot, mouse_slot: &InventorySlot) -> (fits: bool)
    ensures
        fits == click_fits(mouse_slot@, inventory_slot@),
{
    if !mouse_slot.is_selected || mouse_slot.is_empty {
        return true;
    }
    if !inventory_slot.is_empty && mouse_slot.item_name == inventory_slot.item_name
        && mouse_slot.can_stack {
        mouse_slot.item_quantity <= u32::MAX - inventory_slot.item_quantity
    } else {
        true
    }
}

/// Picks the item of `inventory_slot` up into `mouse_slot`. It is a full
/// exchange: the slot receives what the register held before, which for an
/// idle register is nothing.
pub fn transfer_to_mouse_slot(mouse_slot: &mut InventorySlot, inventory_slot: &mut InventorySlot)
    ensures
        (SlotPair { held: final(mouse_slot)@, target: final(inventory_slot)@ }) == picked_up(
            old(mouse_slot)@,
            old(inventory_slot)@,
        ),
{
    let old_mouse_item = mouse_slot.item_name.clone();
    let old_mouse_quantity: u32 = mouse_slot.item_quantity;
    let old_mouse_texture = mouse_slot.texture_path.clone();
    let old_mouse_can_stack = mouse_slot.can_stack;
    let old_mouse_is_empty = mouse_slot.is_empty;

    mouse_slot.item_name = inventory_slot.item_name.clone();
    mouse_slot.texture_path = inventory_slot.texture_path.clone();
    mouse_slot.item_quantity = inventory_slot.item_quantity;
    mouse_slot.can_stack = inventory_slot.can_stack;
    mouse_slot.is_empty = inventory_slot.is_empty;
    mouse_slot.is_selected = true;

    inventory_slot.item_name = old_mouse_item;
    inventory_slot.texture_path = old_mouse_texture;
    inventory_slot.item_quantity = old_mouse_quantity;
    inventory_slot.can_stack = old_mouse_can_stack;
    inventory_slot.is_empty = old_mouse_is_empty;
}

/// Places the held item into `inventory_slot` and releases the register. An
/// empty register has nothing to hand over, and nothing changes.
pub fn transfer_item(inventory_slot: &mut InventorySlot, mouse_slot: &mut InventorySlot)
    ensures
        (SlotPair { held: final(mouse_slot)@, target: final(inventory_slot)@ })
            == item_transferred(old(mouse_slot)@, old(inventory_slot)@),
{
    if mouse_slot.is_empty {
        return;
    }
    inventory_slot.item_name = mouse_slot.item_name.clone();
    inventory_slot.texture_path = mouse_slot.texture_path.clone();
    inventory_slot.item_quantity = mouse_slot.item_quantity;
    inventory_slot.can_stack = mouse_slot.can_stack;
    inventory_slot.is_empty = false;

    mouse_slot.clear();
}

/// Resolves a click on `inventory_slot` while the register is engaged:
/// stack, place or swap, as [`engaged_click`] says. It never fails; a pile
/// that would not fit is left unmade.
pub fn handle_mouse_slot_selection(
    inventory_slot: &mut InventorySlot,
    mouse_slot: &mut InventorySlot,
)
    ensures
        (SlotPair { held: final(mouse_slot)@, target: final(inventory_slot)@ }) == engaged_click(
            old(mouse_slot)@,
            old(inventory_slot)@,
        ),
{
    if mouse_slot.is_empty {
        return;
    }
    if !inventory_slot.is_empty && mouse_slot.item_name == inventory_slot.item_name
        && mouse_slot.can_stack {
        match mouse_slot.item_quantity.checked_add(inventory_slot.item_quantity) {
            Some(total_quantity) => {
                inventory_slot.item_quantity = total_quantity;
                mouse_slot.clear();
            },
            None => {},
        }
    } else if inventory_slot.is_empty {
        transfer_item(inventory_slot, mouse_slot);
    } else {
        let temp_name = inventory_slot.item_name.clone();
        let temp_texture = inventory_slot.texture_path.clone();
        let temp_quantity: u32 = inventory_slot.item_quantity;
        let temp_can_stack = inventory_slot.can_stack;

        inventory_slot.item_name = mouse_slot.item_name.clone();
        inventory_slot.texture_path = mouse_slot.texture_path.clone();
        inventory_slot.item_quantity = mouse_slot.item_quantity;
        inventory_slot.can_stack = mouse_slot.can_stack;
        inventory_slot.is_empty = false;

        mouse_slot.item_name = temp_name;
        mouse_slot.texture_path = temp_texture;
        mouse_slot.item_quantity = temp_quantity;
        mouse_slot.can_stack = temp_can_stack;
        mouse_slot.is_empty = false;
    }
}

/// Resolves one click on `inventory_slot`, with `mouse_slot` as the held-item
/// register: a pick-up while idle, [`handle_mouse_slot_selection`] while
/// engaged. It takes every pair of slots and never fails. The caller owns
/// both for the length of the call, so a click is resolved whole before the
/// next one starts.
pub fn on_slot_clicked(inventory_slot: &mut InventorySlot, mouse_slot: &mut InventorySlot)
    ensures
        (SlotPair { held: final(mouse_slot)@, target: final(inventory_slot)@ }) == click(
            old(mouse_slot)@,
            old(inventory_slot)@,
        ),
        !old(mouse_slot)@.is_selected && old(inventory_slot)@.is_empty ==> final(mouse_slot)@
            == old(mouse_slot)@ && final(inventory_slot)@ == old(inventory_slot)@,
        !old(mouse_slot)@.is_selected && !old(inventory_slot)@.is_empty ==> {
            &&& final(mouse_slot)@.is_selected
            &&& final(mouse_slot)@.same_item_as(old(inventory_slot)@)
            &&& final(inventory_slot)@.same_item_as(old(mouse_slot)@)
        },
        old(mouse_slot)@.well_formed() && old(inventory_slot)@.well_formed() ==> {
            &&& final(mouse_slot)@.well_formed()
            &&& final(inventory_slot)@.well_formed()
        },
{
    if !mouse_slot.is_selected {
        if !inventory_slot.is_empty {
            transfer_to_mouse_slot(mouse_slot, inventory_slot);
        }
    } else {
        handle_mouse_slot_selection(inventory_slot, mouse_slot);
    }
}

/// While the register is idle, a click on an empty slot changes nothing:
/// no field of the slot, none of the register.
pub proof fn idle_click_on_empty_slot_changes_nothing(held: SlotView, target: SlotView)
    requires
        !held.is_selected,
        target.is_empty,
    ensures
        click(held, target) == (SlotPair { held, target }),
{
}

/// Such a click can be repeated at will: after two of them, as after one,
/// register and slot are what they were.
pub proof fn idle_click_on_empty_slot_is_repeatable(held: SlotView, target: SlotView)
    requires
        !held.is_selected,
        target.is_empty,
    ensures
        click(click(held, target).held, click(held, target).target) == (SlotPair { held, target }),
{
}

/// While the register is idle, a click on an occupied slot picks its item up:
/// the register takes over the slot's item data and emptiness exactly and
/// becomes engaged, and the slot takes over what the register held before. A
/// register in its empty state therefore leaves an empty slot behind.
pub proof fn idle_click_on_occupied_slot_picks_up(held: SlotView, target: SlotView)
    requires
        !held.is_selected,
        !target.is_empty,
    ensures
        click(held, target).held.same_item_as(target),
        click(held, target).held.is_empty == target.is_empty,
        click(held, target).held.is_selected,
        click(held, target).target.same_item_as(held),
        click(held, target).target.is_empty == held.is_empty,
        click(held, target).target.is_selected == target.is_selected,
        held == SlotView::empty() ==> click(held, target).target == (SlotView {
            is_selected: target.is_selected,
            ..SlotView::empty()
        }),
{
}

/// A click that finds no room for its pile changes nothing, and every other
/// click is resolved as if quantities had no limit.
pub proof fn click_without_room_changes_nothing(held: SlotView, target: SlotView)
    requires
        !click_fits(held, target),
    ensures
        click(held, target) == (SlotPair { held, target }),
{
}

/// No click makes an ill-formed slot out of well-formed ones: an empty slot
/// or register still carries nothing afterwards.
pub proof fn click_preserves_well_formed(held: SlotView, target: SlotView)
    requires
        held.well_formed(),
        target.well_formed(),
    ensures
        click(held, target).held.well_formed(),
        click(held, target).target.well_formed(),
{
}

/// A register that is engaged exactly when it holds something stays so under
/// every click. Starting from the empty register, an engaged click therefore
/// never finds the register empty.
pub proof fn click_keeps_register_coherent(held: SlotView, target: SlotView)
    requires
        held.is_selected == !held.is_empty,
    ensures
        click(held, target).held.is_selected == !click(held, target).held.is_empty,
{
}

/// A click neither makes nor loses items: on a well-formed target, register
/// and slot together hold the same quantity before and after.
pub proof fn click_conserves_quantity(held: SlotView, target: SlotView)
    requires
        target.well_formed(),
    ensures
        click(held, target).held.item_quantity + click(held, target).target.item_quantity
            == held.item_quantity + target.item_quantity,
{
}

} // verus!
