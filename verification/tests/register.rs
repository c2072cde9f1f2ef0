use std::sync::Mutex;

use inventory_slots::button::{update_button_information, Interaction};
use inventory_slots::resolver::on_slot_clicked;
use inventory_slots::slot::InventorySlot;
use once_cell::sync::Lazy;

fn stocked(name: &str, quantity: u32, can_stack: bool) -> InventorySlot {
    InventorySlot::new(name.to_string(), format!("{}.png", name), quantity, can_stack, false, false)
}

#[test]
fn shared_register_starts_empty_and_idle() {
    let register: Lazy<Mutex<InventorySlot>> = Lazy::new(|| Mutex::new(InventorySlot::empty()));
    let held = register.lock().unwrap();
    assert!(held.is_empty);
    assert!(!held.is_selected);
    assert_eq!(*held, InventorySlot::empty());
}

#[test]
fn shared_register_carries_an_item_between_clicks() {
    let register: Lazy<Mutex<InventorySlot>> = Lazy::new(|| Mutex::new(InventorySlot::empty()));
    let mut from = stocked("Dagger", 1, false);
    let mut to = InventorySlot::empty();
    {
        let mut held = register.lock().unwrap();
        on_slot_clicked(&mut from, &mut held);
    }
    {
        let held = register.lock().unwrap();
        assert!(held.is_selected);
        assert_eq!(held.item_name, "Dagger");
    }
    {
        let mut held = register.lock().unwrap();
        on_slot_clicked(&mut to, &mut held);
    }
    assert_eq!(from, InventorySlot::empty());
    assert_eq!(to, stocked("Dagger", 1, false));
    assert_eq!(*register.lock().unwrap(), InventorySlot::empty());
}

#[test]
fn shared_register_serves_every_button_of_a_grid() {
    let register: Lazy<Mutex<InventorySlot>> = Lazy::new(|| Mutex::new(InventorySlot::empty()));
    let mut grid = vec![
        stocked("Health Potion", 1, true),
        stocked("Health Potion", 1, true),
        stocked("Health Potion", 1, true),
    ];
    let presses = [0usize, 1, 1, 2];
    let mut shown = Vec::new();
    for index in presses {
        let mut held = register.lock().unwrap();
        let information =
            update_button_information(&mut grid[index], &mut held, Interaction::Pressed);
        shown.push(information.text);
    }
    assert_eq!(shown, vec![": 0", "Health Potion: 2", ": 0", "Health Potion: 3"]);
    assert_eq!(grid[0], InventorySlot::empty());
    assert_eq!(grid[1], InventorySlot::empty());
    assert_eq!(grid[2], stocked("Health Potion", 3, true));
    assert_eq!(*register.lock().unwrap(), InventorySlot::empty());
}
