use inventory_slots::button::{
    button_information, spawn_button, spawn_custom_button, update_button_information,
    ButtonInformation, Interaction, SpawnedButton, BUTTON_LIMIT,
};
use inventory_slots::catalog::{catalog_entry, ItemArchetype, CATALOG_LEN};
use inventory_slots::slot::InventorySlot;

fn slot(name: &str, texture: &str, quantity: u32, can_stack: bool) -> InventorySlot {
    InventorySlot::new(name.to_string(), texture.to_string(), quantity, can_stack, false, false)
}

fn engaged(name: &str, texture: &str, quantity: u32, can_stack: bool) -> InventorySlot {
    InventorySlot::new(name.to_string(), texture.to_string(), quantity, can_stack, false, true)
}

#[test]
fn button_is_built_around_its_item() {
    let dagger = catalog_entry(2).unwrap();
    assert_eq!(
        spawn_button(7, dagger),
        SpawnedButton {
            slot: slot("Dagger", "Keeney_Dungeon_Asssets/Tiles/tile_0131.png", 1, false),
            information: ButtonInformation {
                text: "Item 7".to_string(),
                texture_path: "Keeney_Dungeon_Asssets/Tiles/tile_0113.png".to_string(),
            },
        }
    );
}

#[test]
fn button_takes_any_archetype_and_index() {
    let gems = ItemArchetype { name: "Gem", texture_path: "gem.png", quantity: 40, can_stack: true };
    let first = spawn_button(0, gems);
    assert_eq!(first.slot, slot("Gem", "gem.png", 40, true));
    assert_eq!(first.information.text, "Item 0");
    let last = spawn_button(u16::MAX, gems);
    assert_eq!(last.slot, slot("Gem", "gem.png", 40, true));
    assert_eq!(last.information.text, "Item 65535");
    assert_eq!(
        last.information.texture_path,
        "Keeney_Dungeon_Asssets/Tiles/tile_0113.png"
    );
}

#[test]
fn grid_has_twelve_buttons() {
    assert_eq!(BUTTON_LIMIT, 12);
    assert_eq!(spawn_custom_button().len(), 12);
}

#[test]
fn grid_slots_come_from_the_catalog() {
    for button in spawn_custom_button() {
        let known = (0..CATALOG_LEN)
            .any(|index| catalog_entry(index).map(|entry| entry.to_slot()) == Some(button.slot.clone()));
        assert!(known);
        assert!(!button.slot.is_empty);
        assert!(!button.slot.is_selected);
        assert_eq!(button.slot.item_quantity, 1);
    }
}

#[test]
fn grid_buttons_start_with_numbered_labels() {
    let buttons = spawn_custom_button();
    let expected = [
        "Item 0", "Item 1", "Item 2", "Item 3", "Item 4", "Item 5", "Item 6", "Item 7", "Item 8",
        "Item 9", "Item 10", "Item 11",
    ];
    assert_eq!(buttons.len(), expected.len());
    for (button, text) in buttons.iter().zip(expected) {
        assert_eq!(button.information.text, text);
    }
}

#[test]
fn grid_buttons_start_with_the_potion_icon() {
    for button in spawn_custom_button() {
        assert_eq!(
            button.information.texture_path,
            "Keeney_Dungeon_Asssets/Tiles/tile_0113.png"
        );
    }
}

#[test]
fn grids_over_many_builds_use_every_archetype_about_equally() {
    let builds = 250;
    let mut counts = [0usize; 3];
    for _ in 0..builds {
        for button in spawn_custom_button() {
            let index = (0..CATALOG_LEN)
                .find(|&index| {
                    catalog_entry(index).map(|entry| entry.to_slot()) == Some(button.slot.clone())
                })
                .unwrap();
            counts[index] += 1;
        }
    }
    assert_eq!(counts.iter().sum::<usize>(), builds * 12);
    for count in counts {
        assert!(count > 700 && count < 1300);
    }
}

#[test]
fn press_on_an_occupied_slot_picks_it_up() {
    let mut target = slot("Dagger", "d.png", 1, false);
    let mut register = InventorySlot::empty();
    let shown = update_button_information(&mut target, &mut register, Interaction::Pressed);
    assert_eq!(register, engaged("Dagger", "d.png", 1, false));
    assert_eq!(target, InventorySlot::empty());
    assert_eq!(
        shown,
        ButtonInformation { text: ": 0".to_string(), texture_path: String::new() }
    );
}

#[test]
fn press_while_engaged_stacks_and_shows_the_new_pile() {
    let mut target = slot("Health Potion", "p.png", 3, true);
    let mut register = engaged("Health Potion", "p.png", 2, true);
    let shown = update_button_information(&mut target, &mut register, Interaction::Pressed);
    assert_eq!(target, slot("Health Potion", "p.png", 5, true));
    assert_eq!(register, InventorySlot::empty());
    assert_eq!(
        shown,
        ButtonInformation { text: "Health Potion: 5".to_string(), texture_path: "p.png".to_string() }
    );
}

#[test]
fn hover_moves_nothing_and_shows_the_slot() {
    let mut target = slot("Dagger", "d.png", 1, false);
    let mut register = engaged("Health Potion", "p.png", 2, true);
    let shown = update_button_information(&mut target, &mut register, Interaction::Hovered);
    assert_eq!(target, slot("Dagger", "d.png", 1, false));
    assert_eq!(register, engaged("Health Potion", "p.png", 2, true));
    assert_eq!(
        shown,
        ButtonInformation { text: "Dagger: 1".to_string(), texture_path: "d.png".to_string() }
    );
}

#[test]
fn pointer_leaving_moves_nothing_and_shows_the_slot() {
    let mut target = slot("Weird Dagger", "w.png", 1, false);
    let mut register = InventorySlot::empty();
    let shown = update_button_information(&mut target, &mut register, Interaction::Untouched);
    assert_eq!(target, slot("Weird Dagger", "w.png", 1, false));
    assert_eq!(register, InventorySlot::empty());
    assert_eq!(
        shown,
        ButtonInformation { text: "Weird Dagger: 1".to_string(), texture_path: "w.png".to_string() }
    );
}

#[test]
fn press_that_finds_no_room_moves_nothing_and_shows_the_slot() {
    let mut target = slot("Health Potion", "p.png", 1, true);
    let mut register = engaged("Health Potion", "p.png", u32::MAX, true);
    let shown = update_button_information(&mut target, &mut register, Interaction::Pressed);
    assert_eq!(target, slot("Health Potion", "p.png", 1, true));
    assert_eq!(register, engaged("Health Potion", "p.png", u32::MAX, true));
    assert_eq!(
        shown,
        ButtonInformation { text: "Health Potion: 1".to_string(), texture_path: "p.png".to_string() }
    );
}

#[test]
fn information_is_label_and_icon_of_the_slot() {
    assert_eq!(
        button_information(&slot("Dagger", "d.png", 1, false)),
        ButtonInformation { text: "Dagger: 1".to_string(), texture_path: "d.png".to_string() }
    );
    assert_eq!(
        button_information(&InventorySlot::empty()),
        ButtonInformation { text: ": 0".to_string(), texture_path: String::new() }
    );
}

#[test]
fn interactions_keep_well_formed_slots_well_formed() {
    let consistent = |slot: &InventorySlot| {
        !slot.is_empty
            || (slot.item_quantity == 0
                && slot.item_name.is_empty()
                && !slot.can_stack
                && slot.texture_path.is_empty())
    };
    let kinds = [Interaction::Pressed, Interaction::Hovered, Interaction::Untouched];
    let slots = [
        InventorySlot::empty(),
        slot("Health Potion", "p.png", u32::MAX, true),
        slot("Health Potion", "p.png", 2, true),
        slot("Dagger", "d.png", 1, false),
    ];
    let registers = [
        InventorySlot::empty(),
        engaged("Health Potion", "p.png", 1, true),
        engaged("Dagger", "d.png", 1, false),
    ];
    for kind in kinds {
        for start in slots.iter() {
            for held in registers.iter() {
                let mut target = start.clone();
                let mut register = held.clone();
                let _ = update_button_information(&mut target, &mut register, kind);
                assert!(consistent(&target));
                assert!(consistent(&register));
                assert_eq!(register.is_selected, !register.is_empty);
            }
        }
    }
}

#[test]
fn hover_ignores_the_quantity_limit() {
    let mut target = slot("Health Potion", "p.png", u32::MAX, true);
    let mut register = engaged("Health Potion", "p.png", 1, true);
    let shown = update_button_information(&mut target, &mut register, Interaction::Hovered);
    assert_eq!(target.item_quantity, u32::MAX);
    assert_eq!(register.item_quantity, 1);
    assert_eq!(shown.text, "Health Potion: 4294967295");
}

#[test]
fn first_update_replaces_the_placeholder() {
    let mut buttons = spawn_custom_button();
    let mut register = InventorySlot::empty();
    let first = &mut buttons[0];
    assert_eq!(first.information.text, "Item 0");
    let held_before = first.slot.clone();
    first.information =
        update_button_information(&mut first.slot, &mut register, Interaction::Hovered);
    assert_eq!(first.slot, held_before);
    assert_eq!(first.information.text, format!("{}: 1", held_before.item_name));
    assert_eq!(first.information.texture_path, held_before.texture_path);
}
