//! One inventory position and the record it holds.

use vstd::prelude::*;
use crate::text::{decimal, decimal_string};

verus! {

/// The mathematical content of an [`InventorySlot`]: the same six fields, with
/// strings as sequences of characters and the quantity as a natural number.
pub struct SlotView {
    pub item_name: Seq<char>,
    pub item_quantity: nat,
    pub can_stack: bool,
    pub is_empty: bool,
    pub is_selected: bool,
    pub texture_path: Seq<char>,
}

impl SlotView {
    /// An empty slot carries nothing: no quantity, no name, no icon, and it
    /// does not stack. Occupied slots are not constrained.
    pub open spec fn well_formed(self) -> bool {
        self.is_empty ==> {
            &&& self.item_quantity == 0
            &&& self.item_name == Seq::<char>::empty()
            &&& !self.can_stack
            &&& self.texture_path == Seq::<char>::empty()
        }
    }

    /// The canonical empty slot, which is not selected: what
    /// [`InventorySlot::clear`] leaves behind, the state in which the held-item
    /// register starts and to which it returns when it lets go of its item.
    pub open spec fn empty() -> SlotView {
        SlotView {
            item_name: Seq::<char>::empty(),
            item_quantity: 0,
            can_stack: false,
            is_empty: true,
            is_selected: false,
            texture_path: Seq::<char>::empty(),
        }
    }

    /// This slot holding the item of `source` (name, icon, quantity and
    /// stackability); the two flags stay as they are.
    pub open spec fn with_item_of(self, source: SlotView) -> SlotView {
        SlotView {
            item_name: source.item_name,
            item_quantity: source.item_quantity,
            can_stack: source.can_stack,
            texture_path: source.texture_path,
            ..self
        }
    }

    /// The text shown under the slot: the item's name, a colon and a space,
    /// and the quantity in decimal.
    pub open spec fn label(self) -> Seq<char> {
        self.item_name + seq![':', ' '] + decimal(self.item_quantity)
    }

    /// True when both slots hold the same item data, whatever their flags.
    pub open spec fn same_item_as(self, other: SlotView) -> bool {
        &&& self.item_name == other.item_name
        &&& self.item_quantity == other.item_quantity
        &&& self.can_stack == other.can_stack
        &&& self.texture_path == other.texture_path
    }
}

/// The record of one inventory position. The slot that follows the pointer
/// (the held-item register) has the same shape; on it `is_selected` tells
/// whether a pick-and-place gesture is under way.
///
/// `is_empty` is the authority on emptiness, not the name. Emptying a slot
/// goes through [`InventorySlot::clear`], which keeps empty slots
/// [well formed](SlotView::well_formed); plain assignment to a field checks
/// nothing.
#[derive(Clone, Debug, PartialEq, Eq)]
pub struct InventorySlot {
    pub item_name: String,
    pub item_quantity: u32,
    pub can_stack: bool,
    pub is_empty: bool,
    pub is_selected: bool,
    pub texture_path: String,
}

impl View for InventorySlot {
    type V = SlotView;

    open spec fn view(&self) -> SlotView {
        SlotView {
            item_name: self.item_name@,
            item_quantity: self.item_quantity as nat,
            can_stack: self.can_stack,
            is_empty: self.is_empty,
            is_selected: self.is_selected,
            texture_path: self.texture_path@,
        }
    }
}

impl InventorySlot {
    /// Builds a slot from its six fields, taken as they are.
    pub fn new(
        item_name: String,
        texture_path: String,
        item_quantity: u32,
        can_stack: bool,
        is_empty: bool,
        is_selected: bool,
    ) -> (slot: Self)
        ensures
            slot@ == (SlotView {
                item_name: item_name@,
                item_quantity: item_quantity as nat,
                can_stack,
                is_empty,
                is_selected,
                texture_path: texture_path@,
            }),
    {
        InventorySlot { item_name, texture_path, item_quantity, can_stack, is_empty, is_selected }
    }

    /// The empty, unselected slot: the held-item register before its first
    /// pick-up.
    pub fn empty() -> (slot: Self)
        ensures
            slot@ == SlotView::empty(),
            slot@.well_formed(),
    {
        InventorySlot {
            item_name: String::new(),
            texture_path: String::new(),
            item_quantity: 0,
            can_stack: false,
            is_empty: true,
            is_selected: false,
        }
    }

    /// Resets every field to the canonical empty state, whatever the slot
    /// held: name and icon become the empty string, the quantity 0, stacking
    /// is switched off, `is_empty` is set and the selection flag is lowered.
    /// A cleared slot is thus never selected and empty at once.
    pub fn clear(&mut self)
        ensures
            final(self)@ == SlotView::empty(),
            final(self)@.is_empty,
            final(self)@.well_formed(),
    {
        self.item_name = String::new();
        self.is_empty = true;
        self.is_selected = false;
        self.item_quantity = 0;
        self.can_stack = false;
        self.texture_path = String::new();
    }

    /// The text to show under the slot, such as `Dagger: 1`. An empty slot
    /// reads `: 0`.
    pub fn label(&self) -> (text: String)
        ensures
            text@ == self@.label(),
    {
        proof {
            reveal_strlit(": ");
        }
        let mut text = self.item_name.clone();
        text.append(": ");
        assert(text@ =~= self@.item_name + seq![':', ' ']);
        let quantity = decimal_string(self.item_quantity);
        text.append(quantity.as_str());
        text
    }
}

} // verus!
