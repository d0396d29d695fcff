use witcher_game::inventory::{Inventory, Item, ItemType};

#[test]
fn starter_equipment_has_six_entries_and_worn_gear() {
    let inv = Inventory::starter_equipment();
    assert_eq!(inv.items.len(), 6);
    assert_eq!(inv.gold, 100);
    assert_eq!(inv.equipped_steel_sword, Some(0));
    assert_eq!(inv.equipped_silver_sword, Some(1));
    assert_eq!(inv.equipped_armor, Some(2));
    assert_eq!(inv.active_oil, None);
    assert_eq!(inv.items[3].name, "Jaskółka");
    assert_eq!(inv.items[3].quantity, 2);
    assert_eq!(inv.items[5].name, "Samum");
    assert_eq!(inv.items[5].quantity, 2);
    assert_eq!(inv.items[0].description, "Stalowy miecz - 15 pkt ataku");
    assert_eq!(inv.items[3].description, "Eliksir - przywraca 50 zdrowia, 0 wytrzymałości");
}

#[test]
fn attack_and_defense_bonus_of_starting_kit() {
    let inv = Inventory::starter_equipment();
    assert_eq!(inv.get_attack_bonus(false), 15);
    assert_eq!(inv.get_attack_bonus(true), 20);
    assert_eq!(inv.get_defense_bonus(), 12);
}

#[test]
fn removing_shifts_equipment_slots() {
    let mut inv = Inventory::starter_equipment();
    let removed = inv.remove_item(0).unwrap();
    assert_eq!(removed.item_type, ItemType::SteelSword);
    assert_eq!(inv.equipped_steel_sword, None);
    assert_eq!(inv.equipped_silver_sword, Some(0));
    assert_eq!(inv.equipped_armor, Some(1));
    assert_eq!(inv.items[0].item_type, ItemType::SilverSword);
}

#[test]
fn removing_one_of_a_stack_keeps_the_entry() {
    let mut inv = Inventory::starter_equipment();
    let one = inv.remove_item(3).unwrap();
    assert_eq!(one.quantity, 1);
    assert_eq!(inv.items.len(), 6);
    assert_eq!(inv.items[3].quantity, 1);
    assert!(inv.remove_item(99).is_none());
}

#[test]
fn oil_adds_to_attack() {
    let mut inv = Inventory::starter_equipment();
    inv.add_item(Item::oil("Olej na bestie", 15, 25));
    inv.equip_item(6);
    assert_eq!(inv.active_oil, Some(6));
    assert_eq!(inv.get_attack_bonus(true), 35);
    inv.equip_item(3);
    assert_eq!(inv.active_oil, Some(6));
}
