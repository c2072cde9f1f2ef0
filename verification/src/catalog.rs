//! The item archetypes that slots are filled from, and the random draw.

use vstd::prelude::*;
use rand::Rng;
use rand::rngs::ThreadRng;
use crate::slot::{InventorySlot, SlotView};

verus! {

/// An item template: what a slot holds when it is filled with this item.
/// Archetypes are fixed for the life of the program.
#[derive(Clone, Copy, Debug, PartialEq, Eq)]
pub struct ItemArchetype {
    pub name: &'static str,
    pub texture_path: &'static str,
    pub quantity: u32,
    pub can_stack: bool,
}

/// An archetype is seen as the slot it fills: occupied and not selected.
impl View for ItemArchetype {
    type V = SlotView;

    open spec fn view(&self) -> SlotView {
        SlotView {
            item_name: self.name@,
            item_quantity: self.quantity as nat,
            can_stack: self.can_stack,
            is_empty: false,
            is_selected: false,
            texture_path: self.texture_path@,
        }
    }
}

impl ItemArchetype {
    /// A fresh slot filled with this item.
    pub fn to_slot(&self) -> (slot: InventorySlot)
        ensures
            slot@ == self@,
    {
        InventorySlot {
            item_name: String::from_str(self.name),
            texture_path: String::from_str(self.texture_path),
            item_quantity: self.quantity,
            can_stack: self.can_stack,
            is_empty: false,
            is_selected: false,
        }
    }
}

pub const HEALTH_POTION_NAME: &'static str = "Health Potion";

pub const HEALTH_POTION_TEXTURE: &'static str = "Keeney_Dungeon_Asssets/Tiles/tile_0113.png";

pub const WEIRD_DAGGER_NAME: &'static str = "Weird Dagger";

pub const WEIRD_DAGGER_TEXTURE: &'static str = "Keeney_Dungeon_Asssets/Tiles/tile_0130.png";

pub const DAGGER_NAME: &'static str = "Dagger";

pub const DAGGER_TEXTURE: &'static str = "Keeney_Dungeon_Asssets/Tiles/tile_0131.png";

/// The number of archetypes in the catalog.
pub const CATALOG_LEN: usize = 3;

/// The slot of a single item with the given name, icon and stackability.
pub open spec fn single_item(name: Seq<char>, texture_path: Seq<char>, can_stack: bool) -> SlotView {
    SlotView {
        item_name: name,
        item_quantity: 1,
        can_stack,
        is_empty: false,
        is_selected: false,
        texture_path,
    }
}

/// The catalog, in order: a health potion, which stacks, and two daggers,
/// which do not. Each comes as a single item.
pub open spec fn catalog() -> Seq<SlotView> {
    seq![
        single_item(HEALTH_POTION_NAME@, HEALTH_POTION_TEXTURE@, true),
        single_item(WEIRD_DAGGER_NAME@, WEIRD_DAGGER_TEXTURE@, false),
        single_item(DAGGER_NAME@, DAGGER_TEXTURE@, false),
    ]
}

/// True of the slots that the catalog can fill.
pub open spec fn in_catalog(slot: SlotView) -> bool {
    exists|index: int| 0 <= index < catalog().len() && catalog()[index] == slot
}

/// Whatever the catalog fills a slot with is a single item in an occupied,
/// unselected and well-formed slot.
pub proof fn catalog_slots_hold_single_items(slot: SlotView)
    requires
        in_catalog(slot),
    ensures
        !slot.is_empty,
        !slot.is_selected,
        slot.item_quantity == 1,
        slot.well_formed(),
{
}

/// The archetype at `index` in the catalog, if there is one.
pub fn catalog_entry(index: usize) -> (entry: Option<ItemArchetype>)
    ensures
        entry is Some <==> index < catalog().len(),
        entry matches Some(archetype) ==> archetype@ == catalog()[index as int],
{
    if index == 0 {
        Some(
            ItemArchetype {
                name: HEALTH_POTION_NAME,
                texture_path: HEALTH_POTION_TEXTURE,
                quantity: 1,
                can_stack: true,
            },
        )
    } else if index == 1 {
        Some(
            ItemArchetype {
                name: WEIRD_DAGGER_NAME,
                texture_path: WEIRD_DAGGER_TEXTURE,
                quantity: 1,
                can_stack: false,
            },
        )
    } else if index == 2 {
        Some(
            ItemArchetype {
                name: DAGGER_NAME,
                texture_path: DAGGER_TEXTURE,
                quantity: 1,
                can_stack: false,
            },
        )
    } else {
        None
    }
}

/// `rand::rngs::ThreadRng`, the handle to a thread's random number generator.
/// Nothing is known of what is inside.
#[verifier::external_type_specification]
#[verifier::external_body]
pub struct ExThreadRng(rand::rngs::ThreadRng);

/// `rand::thread_rng` hands out the calling thread's generator. Nothing is
/// claimed of the handle. The first call on a thread seeds the generator from
/// the system, and panics if the system has no entropy to give.
pub assume_specification[ rand::thread_rng ]() -> (rng: ThreadRng);

/// `Rng::gen_range` on the range `0..len`: the value drawn lies in the range.
/// The call panics on an empty range, so `len` must be positive. Which value
/// comes is left open. Like the first use of the generator, a draw that has
/// to reseed it panics if the system has no entropy to give.
#[verifier::external_body]
fn random_index(rng: &mut ThreadRng, len: usize) -> (index: usize)
    requires
        len > 0,
    ensures
        index < len,
{
    rng.gen_range(0..len)
}

/// Draws one archetype from the catalog at random, each draw on its own.
pub fn get_random_inventory_slot() -> (item: ItemArchetype)
    ensures
        in_catalog(item@),
{
    let mut rng = rand::thread_rng();
    let index: usize = random_index(&mut rng, CATALOG_LEN);
    catalog_entry(index).unwrap()
}

} // verus!
