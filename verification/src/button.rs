//! The buttons of the slot grid: what each one holds and shows.

use vstd::prelude::*;
use crate::catalog::{get_random_inventory_slot, in_catalog, ItemArchetype, HEALTH_POTION_TEXTURE};
use crate::resolver::{click, on_slot_clicked, SlotPair};
use crate::slot::{InventorySlot, SlotView};
use crate::text::{decimal, decimal_string};

verus! {

/// The number of buttons in the grid.
pub const BUTTON_LIMIT: u16 = 12;

/// What the pointer does to a button.
#[derive(Clone, Copy, Debug, PartialEq, Eq)]
pub enum Interaction {
    /// The button was clicked.
    Pressed,
    /// The pointer is over the button.
    Hovered,
    /// The pointer is elsewhere.
    Untouched,
}

/// What a button shows: the text under its icon, and the icon's path.
#[derive(Clone, Debug, PartialEq, Eq)]
pub struct ButtonInformation {
    pub text: String,
    pub texture_path: String,
}

/// A button of the grid as it is first put on screen.
#[derive(Clone, Debug, PartialEq, Eq)]
pub struct SpawnedButton {
    pub slot: InventorySlot,
    pub information: ButtonInformation,
}

/// The text that the button at `index` shows until its first update.
pub open spec fn initial_label(index: nat) -> Seq<char> {
    seq!['I', 't', 'e', 'm', ' '] + decimal(index)
}

/// What the button at `index` shows until its first update: a numbered
/// placeholder text and the health potion's icon, whatever its slot holds.
pub open spec fn shows_placeholder(information: ButtonInformation, index: nat) -> bool {
    &&& information.text@ == initial_label(index)
    &&& information.texture_path@ == HEALTH_POTION_TEXTURE@
}

/// Builds the button at `index` of the grid around the item drawn for it:
/// its slot holds the item, and it shows the placeholder.
pub fn spawn_button(index: u16, item: ItemArchetype) -> (button: SpawnedButton)
    ensures
        button.slot@ == item@,
        shows_placeholder(button.information, index as nat),
{
    proof {
        reveal_strlit("Item ");
    }
    let mut text = String::from_str("Item ");
    let number = decimal_string(index as u32);
    text.append(number.as_str());
    assert(text@ =~= initial_label(index as nat));
    let information = ButtonInformation {
        text,
        texture_path: String::from_str(HEALTH_POTION_TEXTURE),
    };
    SpawnedButton { slot: item.to_slot(), information }
}

/// Builds the buttons of the grid, [`BUTTON_LIMIT`] of them, in order. Each
/// slot is filled by a draw of its own from the catalog, so items may repeat.
pub fn spawn_custom_button() -> (buttons: Vec<SpawnedButton>)
    ensures
        buttons@.len() == BUTTON_LIMIT,
        forall|i: int|
            0 <= i < buttons@.len() ==> in_catalog(#[trigger] buttons@[i].slot@)
                && shows_placeholder(buttons@[i].information, i as nat),
{
    let mut buttons: Vec<SpawnedButton> = Vec::new();
    for i in 0..BUTTON_LIMIT
        invariant
            buttons@.len() == i,
            forall|k: int|
                0 <= k < buttons@.len() ==> in_catalog(#[trigger] buttons@[k].slot@)
                    && shows_placeholder(buttons@[k].information, k as nat),
    {
        let inventory_slot = get_random_inventory_slot();
        buttons.push(spawn_button(i, inventory_slot));
    }
    buttons
}

/// What a button holds and what the register holds after `interaction`: a
/// press is a click on the slot, anything else leaves both as they are.
pub open spec fn after_interaction(
    held: SlotView,
    target: SlotView,
    interaction: Interaction,
) -> SlotPair {
    if interaction is Pressed {
        click(held, target)
    } else {
        SlotPair { held, target }
    }
}

/// What the button that holds `inventory_slot` shows: the slot's label and
/// its icon.
pub fn button_information(inventory_slot: &InventorySlot) -> (information: ButtonInformation)
    ensures
        information.text@ == inventory_slot@.label(),
        information.texture_path@ == inventory_slot@.texture_path,
{
    ButtonInformation {
        text: inventory_slot.label(),
        texture_path: inventory_slot.texture_path.clone(),
    }
}

/// Handles a change of `interaction` on the button that holds
/// `inventory_slot`: a press is resolved as a click against `mouse_slot`, the
/// held-item register, and anything else leaves both alone. Returns what the
/// button shows afterwards, which is the slot's label and icon whether or not
/// anything moved. Slot and register stay well formed if they were.
pub fn update_button_information(
    inventory_slot: &mut InventorySlot,
    mouse_slot: &mut InventorySlot,
    interaction: Interaction,
) -> (information: ButtonInformation)
    ensures
        (SlotPair { held: final(mouse_slot)@, target: final(inventory_slot)@ })
            == after_interaction(old(mouse_slot)@, old(inventory_slot)@, interaction),
        information.text@ == final(inventory_slot)@.label(),
        information.texture_path@ == final(inventory_slot)@.texture_path,
        old(mouse_slot)@.well_formed() && old(inventory_slot)@.well_formed() ==> {
            &&& final(mouse_slot)@.well_formed()
            &&& final(inventory_slot)@.well_formed()
        },
{
    match interaction {
        Interaction::Pressed => {
            on_slot_clicked(inventory_slot, mouse_slot);
        },
        Interaction::Hovered => {},
        Interaction::Untouched => {},
    }
    button_information(inventory_slot)
}

} // verus!
