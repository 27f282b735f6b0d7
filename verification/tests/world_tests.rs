use silkroad_core::action::{Action, ActionDescription, ActionTarget, RefSkillData, SkillParam, SkillTimings};
use silkroad_core::entity::GameEntity;
use silkroad_core::gold::GoldPouch;
use silkroad_core::inventory::Inventory;
use silkroad_core::item::{Item, ItemTypeData, RefBiologicalType, RefItemData};
use silkroad_core::messages::{ClientPacket, ServerPacket};
use silkroad_core::objects::{ObjectConsumable, ObjectItem, ObjectType, Race};
use silkroad_core::position::Position;
use silkroad_core::protocol::{
    InventoryOperationRequest, PerformActionError, PerformActionResponse,
};
use silkroad_core::region::Region;
use silkroad_core::pickup::pickup_tick;
use silkroad_core::protocol::{InventoryOperationError, InventoryOperationResult};
use silkroad_core::store::{Components, DroppedItem, EntityStore, PickupState, PlayerData};
use silkroad_core::sync::Synchronize;
use silkroad_core::visibility::{player_visibility_update, Visibility};
use silkroad_core::world::World;

fn base_position(x_tenths: i32) -> Position {
    Position {
        region: Region::new(25000),
        x_tenths,
        y_tenths: 0,
        z_tenths: 500,
        heading: 0,
    }
}

fn bare_components(ref_id: u32, unique_id: u32, x_tenths: i32) -> Components {
    Components {
        game_entity: GameEntity { ref_id, unique_id },
        position: base_position(x_tenths),
        synchronize: Synchronize::new(),
        visibility: None,
        inventory: None,
        gold: None,
        action: None,
        pickup: None,
        dropped: None,
        player: None,
        input: None,
    }
}

fn potion_item() -> Item {
    Item {
        reference: RefItemData {
            ref_id: 5,
            object_type: ObjectType::Item(ObjectItem::Consumable(ObjectConsumable::Recovery)),
            price: 0,
            max_stack_size: 50,
            range: 0,
            required_level: None,
            biological_type: RefBiologicalType::Both,
            physical_attack_power_lower: 0,
            physical_attack_power_upper: 0,
            magical_attack_power_lower: 0,
            magical_attack_power_upper: 0,
            critical: 0,
            physical_reinforce_lower: 0,
            physical_reinforce_upper: 0,
            magical_reinforce_lower: 0,
            magical_reinforce_upper: 0,
            attack_rate: 0,
        },
        variance: None,
        type_data: ItemTypeData::Expendable { stack_size: 3 },
    }
}

#[test]
fn store_detects_stale_handles() {
    let mut store = EntityStore::new();
    let first = store.spawn(bare_components(1907, 1, 100));
    assert!(store.get(first).is_some());
    assert!(store.despawn(first));
    assert!(store.get(first).is_none());
    // the slot is reused under a new generation; the old handle stays dead
    let second = store.spawn(bare_components(1908, 2, 100));
    assert_eq!(second.index, first.index);
    assert_ne!(second.generation, first.generation);
    assert!(store.get(first).is_none());
    assert_eq!(store.get(second).unwrap().game_entity.unique_id, 2);
}

#[test]
fn tick_leaves_every_accumulator_empty() {
    let mut world = World::new();
    let mut noisy = bare_components(1907, 0, 100);
    noisy.synchronize.add_despawned(42);
    noisy.synchronize.set_movement(silkroad_core::sync::MovementUpdate::Turn { heading: 7 });
    let mut inputs = silkroad_core::inputs::PlayerInput::new();
    inputs.rotation = Some(9);
    noisy.input = Some(inputs);
    let e = world.spawn(1907, noisy);
    let packets: Vec<(silkroad_core::store::EntityHandle, ClientPacket)> =
        vec![(e, ClientPacket::Rotation { heading: 3 })];
    world.tick(100, packets);
    let components = world.store.get(e).expect("the entity survives the tick");
    assert!(components.synchronize.movement.is_none());
    assert!(components.synchronize.damage.is_empty());
    assert!(components.synchronize.despawned.is_empty());
    let input = components.input.as_ref().expect("the input buffer stays attached");
    assert!(input.rotation.is_none());
    assert!(input.chat.is_empty());
}

#[test]
fn claimed_item_rejects_second_pickup() {
    let mut world = World::new();
    // the ground item
    let ground = world.spawn(5, {
        let mut c = bare_components(5, 0, 110);
        c.dropped = Some(DroppedItem { item: potion_item(), owner: None });
        c
    });
    // two actors aiming at the same ground item
    let actor = |target| {
        let mut c = bare_components(1907, 0, 100);
        c.inventory = Some(Inventory::new(45));
        c.gold = Some(GoldPouch::new(0));
        c.player = Some(PlayerData { level: 10, race: Race::Chinese, strength: 20 });
        c.pickup = Some(PickupState { target, cooldown: None });
        c
    };
    let first = world.spawn(1907, actor(ground));
    let second = world.spawn(1908, actor(ground));
    let first_uid = world.store.get(first).unwrap().game_entity.unique_id;
    let second_uid = world.store.get(second).unwrap().game_entity.unique_id;
    let out = world.execute_pickups(16);
    // the first actor claimed the item: the ground object is gone and the
    // claim cooldown runs
    assert!(world.store.get(ground).is_none());
    let first_state = world.store.get(first).unwrap();
    assert!(first_state.pickup.is_some());
    assert_eq!(first_state.pickup.unwrap().cooldown, Some(1000));
    assert_eq!(first_state.inventory.as_ref().unwrap().get_item_at(13).unwrap().reference.ref_id, 5);
    // the second actor was told the target is invalid, nothing else changed
    let second_state = world.store.get(second).unwrap();
    assert!(second_state.pickup.is_none());
    assert!(second_state.inventory.as_ref().unwrap().get_item_at(13).is_none());
    let second_msgs: Vec<_> = out.iter().filter(|(uid, _)| *uid == second_uid).collect();
    assert_eq!(second_msgs.len(), 1);
    assert_eq!(
        second_msgs[0].1,
        vec![ServerPacket::PerformActionResponse(PerformActionResponse::Stop(
            PerformActionError::InvalidTarget,
        ))]
    );
    // the first actor's in-progress claim keeps running on the next tick
    let out = world.execute_pickups(1000);
    let first_state = world.store.get(first).unwrap();
    assert!(first_state.pickup.is_none());
    let first_msgs: Vec<_> = out.iter().filter(|(uid, _)| *uid == first_uid).collect();
    assert_eq!(
        first_msgs[0].1,
        vec![ServerPacket::PerformActionResponse(PerformActionResponse::Stop(
            PerformActionError::Completed,
        ))]
    );
}

#[test]
fn mutual_visibility_spawns_both_ways() {
    // two players with a 200-unit radius standing 150 units apart
    let a_entity = GameEntity { ref_id: 1907, unique_id: 1 };
    let b_entity = GameEntity { ref_id: 1908, unique_id: 2 };
    let a_position = base_position(100);
    let b_position = base_position(100 + 1500);
    let mut a_vis = Visibility::with_radius(2000);
    let mut b_vis = Visibility::with_radius(2000);
    let mut a_sync = Synchronize::new();
    let mut b_sync = Synchronize::new();
    let a_spawns = player_visibility_update(
        &mut a_vis,
        a_position.location(),
        &vec![(b_entity, b_position.location())],
        &mut a_sync,
    );
    let b_spawns = player_visibility_update(
        &mut b_vis,
        b_position.location(),
        &vec![(a_entity, a_position.location())],
        &mut b_sync,
    );
    assert_eq!(a_spawns, vec![ServerPacket::EntitySpawn { ref_id: 1908, unique_id: 2 }]);
    assert_eq!(b_spawns, vec![ServerPacket::EntitySpawn { ref_id: 1907, unique_id: 1 }]);
    assert_eq!(a_vis.entities_in_radius, vec![2]);
    assert_eq!(b_vis.entities_in_radius, vec![1]);
    // a later tick with both still in range spawns nothing anew
    let again = player_visibility_update(
        &mut a_vis,
        a_position.location(),
        &vec![(b_entity, b_position.location())],
        &mut a_sync,
    );
    assert!(again.is_empty());
    assert!(a_sync.despawned.is_empty());
}

#[test]
fn leaving_visibility_accumulates_despawn() {
    let b_entity = GameEntity { ref_id: 1908, unique_id: 2 };
    let a_position = base_position(100);
    let mut a_vis = Visibility::with_radius(2000);
    let mut a_sync = Synchronize::new();
    player_visibility_update(
        &mut a_vis,
        a_position.location(),
        &vec![(b_entity, base_position(600).location())],
        &mut a_sync,
    );
    assert_eq!(a_vis.entities_in_radius, vec![2]);
    // the other entity walks out of range
    player_visibility_update(
        &mut a_vis,
        a_position.location(),
        &vec![(b_entity, base_position(2600).location())],
        &mut a_sync,
    );
    assert!(a_vis.entities_in_radius.is_empty());
    assert_eq!(a_sync.despawned, vec![2]);
}

#[test]
fn full_equipment_pickup_reports_the_rejection() {
    // an inventory whose storage slots are all taken
    let mut inventory = Inventory::new(14);
    inventory.put_item_at(13, potion_item());
    let mut gold = GoldPouch::new(0);
    let mut pickup = PickupState {
        target: silkroad_core::store::EntityHandle { index: 0, generation: 0 },
        cooldown: None,
    };
    let sword = Item {
        reference: RefItemData {
            ref_id: 70,
            object_type: ObjectType::Item(ObjectItem::Consumable(ObjectConsumable::Recovery)),
            price: 0,
            max_stack_size: 1,
            range: 0,
            required_level: None,
            biological_type: RefBiologicalType::Both,
            physical_attack_power_lower: 0,
            physical_attack_power_upper: 0,
            magical_attack_power_lower: 0,
            magical_attack_power_upper: 0,
            critical: 0,
            physical_reinforce_lower: 0,
            physical_reinforce_upper: 0,
            magical_reinforce_lower: 0,
            magical_reinforce_upper: 0,
            attack_rate: 0,
        },
        variance: None,
        type_data: ItemTypeData::Equipment { upgrade_level: 1 },
    };
    let dropped = DroppedItem { item: sword, owner: None };
    let outcome = pickup_tick(&mut pickup, 16, Some(&dropped), &mut inventory, &mut gold);
    assert!(outcome.claim_target);
    assert_eq!(
        outcome.messages,
        vec![ServerPacket::InventoryOperationResult(InventoryOperationResult::Error(
            InventoryOperationError::InventoryFull,
        ))]
    );
    // the ground item stays removed: the claim is irreversible
    assert!(inventory.get_item_at(13).unwrap().reference.ref_id == 5);
}

#[test]
fn world_tick_resolves_an_attack() {
    let mut world = World::new();
    let target = world.spawn(1933, bare_components(1933, 0, 150));
    let target_uid = world.store.get(target).unwrap().game_entity.unique_id;
    let attacker = world.spawn(1907, {
        let mut c = bare_components(1907, 0, 100);
        c.player = Some(PlayerData { level: 10, race: Race::Chinese, strength: 20 });
        c.action = Some(Action::from(ActionDescription(
            RefSkillData {
                ref_id: 9,
                timings: SkillTimings {
                    preparation_time: 100,
                    cast_time: 0,
                    duration: 0,
                    next_delay: 100,
                },
                params: vec![SkillParam::Attack],
            },
            ActionTarget::Entity(target_uid),
        )));
        c
    });
    world.execute_actions(100);
    let target_state = world.store.get(target).unwrap();
    assert_eq!(target_state.synchronize.damage.len(), 1);
    let event = &target_state.synchronize.damage[0];
    assert_eq!(event.attack.instance, 0);
    // an unarmed player deals the fixed unarmed damage
    assert_eq!(event.amount, silkroad_core::action::UNARMED_DAMAGE);
    let attacker_state = world.store.get(attacker).unwrap();
    assert!(attacker_state.action.is_some());
}
