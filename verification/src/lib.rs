//! Click-driven inventory slots: the records of a slot grid, the catalog they
//! are filled from, and the rules by which a click moves items between a slot
//! and the item held on the pointer.

pub mod slot;
pub mod resolver;
pub mod text;
pub mod catalog;
pub mod button;
