use silkroad_core::gold::GoldPouch;
use silkroad_core::inventory::{Inventory, MoveError, FIRST_STORAGE_SLOT};
use silkroad_core::inventory_ops::{
    handle_inventory_input, handle_inventory_movement, handle_player_drop_gold,
};
use silkroad_core::item::{
    get_gold_ref_id, item_fits_into_equipment_slot, weapon_is_onehanded, Item, ItemTypeData,
    RefBiologicalType, RefItemData, GOLD_LARGE_REF_ID, GOLD_MEDIUM_REF_ID, GOLD_SMALL_REF_ID,
};
use silkroad_core::messages::ServerPacket;
use silkroad_core::objects::{
    does_object_type_match_race, does_object_type_match_slot, ObjectClothingPart,
    ObjectClothingType, ObjectEquippable, ObjectItem, ObjectType, ObjectWeaponType, Race,
};
use silkroad_core::position::Position;
use silkroad_core::protocol::{
    InventoryOperationError, InventoryOperationRequest, InventoryOperationResponseData,
    InventoryOperationResult,
};
use silkroad_core::region::Region;

fn ref_data(ref_id: u32, object_type: ObjectType) -> RefItemData {
    RefItemData {
        ref_id,
        object_type,
        price: 0,
        max_stack_size: 1,
        range: 0,
        required_level: Some(1),
        biological_type: RefBiologicalType::Both,
        physical_attack_power_lower: 10,
        physical_attack_power_upper: 20,
        magical_attack_power_lower: 0,
        magical_attack_power_upper: 0,
        critical: 0,
        physical_reinforce_lower: 150,
        physical_reinforce_upper: 250,
        magical_reinforce_lower: 0,
        magical_reinforce_upper: 0,
        attack_rate: 0,
    }
}

fn chinese_sword(ref_id: u32) -> Item {
    Item {
        reference: ref_data(
            ref_id,
            ObjectType::Item(ObjectItem::Equippable(ObjectEquippable::Weapon(
                ObjectWeaponType::Sword,
            ))),
        ),
        variance: None,
        type_data: ItemTypeData::Equipment { upgrade_level: 3 },
    }
}

fn european_two_hander(ref_id: u32) -> Item {
    Item {
        reference: ref_data(
            ref_id,
            ObjectType::Item(ObjectItem::Equippable(ObjectEquippable::Weapon(
                ObjectWeaponType::TwoHandSword,
            ))),
        ),
        variance: None,
        type_data: ItemTypeData::Equipment { upgrade_level: 0 },
    }
}

fn potion_stack(ref_id: u32, stack: u16, max_stack: u16) -> Item {
    let mut reference = ref_data(ref_id, ObjectType::Item(ObjectItem::Consumable(
        silkroad_core::objects::ObjectConsumable::Recovery,
    )));
    reference.max_stack_size = max_stack;
    reference.required_level = None;
    Item {
        reference,
        variance: None,
        type_data: ItemTypeData::Expendable { stack_size: stack },
    }
}

fn standing_position() -> Position {
    Position {
        region: Region::new(24998),
        x_tenths: 7390,
        y_tenths: 375,
        z_tenths: 17570,
        heading: 0,
    }
}

#[test]
fn slot_classification() {
    assert!(Inventory::is_equipment_slot(0));
    assert!(Inventory::is_equipment_slot(12));
    assert!(!Inventory::is_equipment_slot(FIRST_STORAGE_SLOT));
    assert!(!Inventory::is_equipment_slot(44));
}

#[test]
fn move_item_rejects_bad_slots() {
    let mut inventory = Inventory::new(45);
    assert_eq!(inventory.move_item(50, 14, 1), Err(MoveError::Impossible));
    assert_eq!(inventory.move_item(14, 14, 1), Err(MoveError::Impossible));
    assert_eq!(inventory.move_item(14, 15, 0), Err(MoveError::Impossible));
    assert_eq!(inventory.move_item(14, 15, 1), Err(MoveError::ItemDoesNotExist));
}

#[test]
fn move_item_moves_whole_item() {
    let mut inventory = Inventory::new(45);
    inventory.put_item_at(14, chinese_sword(101));
    assert_eq!(inventory.move_item(14, 20, 1), Ok(1));
    assert!(inventory.get_item_at(14).is_none());
    assert_eq!(inventory.get_item_at(20).unwrap().reference.ref_id, 101);
}

#[test]
fn move_item_splits_a_stack() {
    let mut inventory = Inventory::new(45);
    inventory.put_item_at(14, potion_stack(200, 10, 50));
    assert_eq!(inventory.move_item(14, 15, 4), Ok(4));
    assert_eq!(inventory.get_item_at(14).unwrap().stack_size(), 6);
    assert_eq!(inventory.get_item_at(15).unwrap().stack_size(), 4);
}

#[test]
fn move_item_merges_matching_stacks() {
    let mut inventory = Inventory::new(45);
    inventory.put_item_at(14, potion_stack(200, 10, 50));
    inventory.put_item_at(15, potion_stack(200, 45, 50));
    // only five units fit into the target stack
    assert_eq!(inventory.move_item(14, 15, 10), Ok(5));
    assert_eq!(inventory.get_item_at(14).unwrap().stack_size(), 5);
    assert_eq!(inventory.get_item_at(15).unwrap().stack_size(), 50);
}

#[test]
fn move_item_refuses_full_stack() {
    let mut inventory = Inventory::new(45);
    inventory.put_item_at(14, potion_stack(200, 10, 50));
    inventory.put_item_at(15, potion_stack(200, 50, 50));
    assert_eq!(inventory.move_item(14, 15, 10), Err(MoveError::NotStackable));
    assert_eq!(inventory.get_item_at(14).unwrap().stack_size(), 10);
}

#[test]
fn move_item_swaps_unrelated_items() {
    let mut inventory = Inventory::new(45);
    inventory.put_item_at(14, chinese_sword(101));
    inventory.put_item_at(15, potion_stack(200, 10, 50));
    assert_eq!(inventory.move_item(14, 15, 1), Ok(1));
    assert_eq!(inventory.get_item_at(14).unwrap().reference.ref_id, 200);
    assert_eq!(inventory.get_item_at(15).unwrap().reference.ref_id, 101);
}

#[test]
fn type_tables_match_slots_and_races() {
    let sword = ObjectType::Item(ObjectItem::Equippable(ObjectEquippable::Weapon(
        ObjectWeaponType::Sword,
    )));
    assert!(does_object_type_match_slot(6, sword));
    assert!(!does_object_type_match_slot(7, sword));
    assert!(does_object_type_match_race(Race::Chinese, sword));
    assert!(!does_object_type_match_race(Race::European, sword));
    let head = ObjectType::Item(ObjectItem::Equippable(ObjectEquippable::Clothing(
        ObjectClothingType::HeavyArmor,
        ObjectClothingPart::Head,
    )));
    assert!(does_object_type_match_slot(0, head));
    assert!(!does_object_type_match_slot(2, head));
    assert!(does_object_type_match_race(Race::European, head));
}

#[test]
fn onehanded_weapon_classification() {
    assert_eq!(weapon_is_onehanded(&chinese_sword(101)), Ok(true));
    assert_eq!(weapon_is_onehanded(&european_two_hander(102)), Ok(false));
    assert!(weapon_is_onehanded(&potion_stack(200, 1, 50)).is_err());
}

#[test]
fn equip_into_empty_slot_reports_move_and_equip() {
    let mut inventory = Inventory::new(45);
    inventory.put_item_at(20, chinese_sword(101));
    let msgs = handle_inventory_movement(&mut inventory, 20, 6, 1, 10, Race::Chinese, 77);
    assert_eq!(msgs.len(), 2);
    match &msgs[0] {
        ServerPacket::InventoryOperationResult(InventoryOperationResult::Success(
            InventoryOperationResponseData::MoveItem { source, target, amount },
        )) => {
            assert_eq!((*source, *target, *amount), (20, 6, 1));
        }
        other => panic!("unexpected first message: {:?}", other),
    }
    match &msgs[1] {
        ServerPacket::CharacterEquipItem(equip) => {
            assert_eq!(equip.entity, 77);
            assert_eq!(equip.slot, 6);
            assert_eq!(equip.item_ref, 101);
        }
        other => panic!("unexpected second message: {:?}", other),
    }
    assert_eq!(inventory.get_item_at(6).unwrap().reference.ref_id, 101);
    assert!(inventory.get_item_at(20).is_none());
}

#[test]
fn equip_into_occupied_slot_reports_unequip_too() {
    let mut inventory = Inventory::new(45);
    inventory.put_item_at(6, chinese_sword(55));
    inventory.put_item_at(20, chinese_sword(101));
    let msgs = handle_inventory_movement(&mut inventory, 20, 6, 1, 10, Race::Chinese, 77);
    assert_eq!(msgs.len(), 3);
    match &msgs[1] {
        ServerPacket::CharacterUnequipItem(unequip) => {
            assert_eq!(unequip.slot, 6);
            assert_eq!(unequip.item_ref, 55);
        }
        other => panic!("unexpected second message: {:?}", other),
    }
    match &msgs[2] {
        ServerPacket::CharacterEquipItem(equip) => {
            assert_eq!(equip.slot, 6);
            assert_eq!(equip.item_ref, 101);
        }
        other => panic!("unexpected third message: {:?}", other),
    }
    // the old weapon was swapped back into the source slot
    assert_eq!(inventory.get_item_at(20).unwrap().reference.ref_id, 55);
}

#[test]
fn equip_of_opposing_race_weapon_is_indisposable() {
    // a two-handed sword of the European families, equipped by a Chinese actor
    let mut inventory = Inventory::new(45);
    inventory.put_item_at(20, european_two_hander(102));
    let before: Vec<Option<u32>> = (0..45)
        .map(|slot| inventory.get_item_at(slot).map(|item| item.reference.ref_id))
        .collect();
    let msgs = handle_inventory_movement(&mut inventory, 20, 6, 1, 10, Race::Chinese, 77);
    assert_eq!(msgs.len(), 1);
    match &msgs[0] {
        ServerPacket::InventoryOperationResult(InventoryOperationResult::Error(error)) => {
            assert_eq!(*error, InventoryOperationError::Indisposable);
        }
        other => panic!("unexpected message: {:?}", other),
    }
    let after: Vec<Option<u32>> = (0..45)
        .map(|slot| inventory.get_item_at(slot).map(|item| item.reference.ref_id))
        .collect();
    assert_eq!(before, after);
}

#[test]
fn equip_rejects_too_high_level_requirement() {
    let mut sword = chinese_sword(101);
    sword.reference.required_level = Some(30);
    assert!(!item_fits_into_equipment_slot(&sword, 6, 10, Race::Chinese));
    assert!(item_fits_into_equipment_slot(&sword, 6, 30, Race::Chinese));
}

#[test]
fn unequip_reports_unequip_message() {
    let mut inventory = Inventory::new(45);
    inventory.put_item_at(6, chinese_sword(55));
    let msgs = handle_inventory_movement(&mut inventory, 6, 20, 1, 10, Race::Chinese, 77);
    assert_eq!(msgs.len(), 2);
    match &msgs[1] {
        ServerPacket::CharacterUnequipItem(unequip) => {
            assert_eq!(unequip.slot, 6);
            assert_eq!(unequip.item_ref, 55);
        }
        other => panic!("unexpected second message: {:?}", other),
    }
    assert_eq!(inventory.get_item_at(20).unwrap().reference.ref_id, 55);
}

#[test]
fn gold_drop_debits_the_balance() {
    let mut gold = GoldPouch::new(500);
    let position = standing_position();
    let outcome = handle_player_drop_gold(120, &mut gold, &position);
    assert!(outcome.accepted);
    assert_eq!(gold.amount(), 380);
    let drop = outcome.drop.expect("a drop object is spawned");
    assert_eq!(drop.item.reference.ref_id, GOLD_SMALL_REF_ID);
    match drop.item.type_data {
        ItemTypeData::Gold { amount } => assert_eq!(amount, 120),
        other => panic!("unexpected item payload: {:?}", other),
    }
    assert_eq!(outcome.messages.len(), 1);
}

#[test]
fn gold_drop_of_more_than_held_is_rejected() {
    // dropping 100 gold while holding 50
    let mut gold = GoldPouch::new(50);
    let position = standing_position();
    let outcome = handle_player_drop_gold(100, &mut gold, &position);
    assert!(!outcome.accepted);
    assert!(outcome.drop.is_none());
    assert_eq!(gold.amount(), 50);
    assert_eq!(outcome.messages.len(), 1);
    match &outcome.messages[0] {
        ServerPacket::InventoryOperationResult(InventoryOperationResult::Error(error)) => {
            assert_eq!(*error, InventoryOperationError::NotEnoughGold);
        }
        other => panic!("unexpected message: {:?}", other),
    }
}

#[test]
fn gold_drop_of_zero_is_silently_refused() {
    let mut gold = GoldPouch::new(50);
    let position = standing_position();
    let outcome = handle_player_drop_gold(0, &mut gold, &position);
    assert!(!outcome.accepted);
    assert!(outcome.drop.is_none());
    assert_eq!(gold.amount(), 50);
    assert!(outcome.messages.is_empty());
}

#[test]
fn gold_pile_sizes() {
    assert_eq!(get_gold_ref_id(1), GOLD_SMALL_REF_ID);
    assert_eq!(get_gold_ref_id(1000), GOLD_SMALL_REF_ID);
    assert_eq!(get_gold_ref_id(1001), GOLD_MEDIUM_REF_ID);
    assert_eq!(get_gold_ref_id(5000), GOLD_MEDIUM_REF_ID);
    assert_eq!(get_gold_ref_id(5001), GOLD_LARGE_REF_ID);
}

#[test]
fn inventory_input_dispatches_gold_and_moves() {
    let mut inventory = Inventory::new(45);
    inventory.put_item_at(20, chinese_sword(101));
    let mut gold = GoldPouch::new(1000);
    let position = standing_position();
    let request = InventoryOperationRequest::DropGold { amount: 250 };
    let outcome = handle_inventory_input(
        &request,
        &mut inventory,
        &mut gold,
        &position,
        10,
        Race::Chinese,
        77,
    );
    assert_eq!(gold.amount(), 750);
    assert!(outcome.drop.is_some());
    let request = InventoryOperationRequest::Move {
        source: 20,
        target: 6,
        amount: 1,
    };
    let outcome = handle_inventory_input(
        &request,
        &mut inventory,
        &mut gold,
        &position,
        10,
        Race::Chinese,
        77,
    );
    assert_eq!(outcome.messages.len(), 2);
    assert!(outcome.drop.is_none());
}
