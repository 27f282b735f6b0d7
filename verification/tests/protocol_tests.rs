use silkroad_core::entity::GameEntity;
use silkroad_core::inputs::{
    receive_game_inputs, route_game_packet, route_login_packet, GameInputEvent, LoginInput,
    PlayerInput,
};
use silkroad_core::messages::{ClientPacket, ModuleName, ServerPacket};
use silkroad_core::position::Position;
use silkroad_core::protocol::{
    CelestialUpdate, EntityUpdateState, GameNotification, GroupSpawnDataContent, GroupSpawnType,
    InventoryOperationRequest, LunarEventInfo, MovementDestination, TargetEntityResult,
    UpdatedState, AliveState, WeatherType, WeatherUpdate,
};
use silkroad_core::region::Region;
use silkroad_core::sync::{send_despawns, sync_changes_others, update_client, update_movement_for, MovementUpdate, Synchronize};
use silkroad_core::time::as_wire_time;
use silkroad_core::schedule::{validate_schedule, standard_schedule, ComponentKind, Phase, SystemDeclaration};
use silkroad_core::monster::{SpawnOptions, Spawner};
use silkroad_core::gold::GoldPouch;
use silkroad_core::action::{AttackDefinition, DamageReceiveEvent};
use silkroad_core::entity::EntityReference;
use silkroad_core::protocol::{EntityBarUpdateSource, EntityBarUpdates, EntityBarsUpdate};

#[test]
fn region_packs_its_coordinates() {
    let region = Region::from_xy(0x37, 0x61);
    assert_eq!(region.x(), 0x37);
    assert_eq!(region.y(), 0x61);
    assert_eq!(region.id(), 0x6137);
    assert!(!region.is_dungeon());
    assert!(Region::new(0x8001).is_dungeon());
}

#[test]
fn region_grid_neighbours() {
    let region = Region::from_xy(10, 20);
    let neighbours = region.with_grid_neighbours();
    assert_eq!(neighbours.len(), 9);
    assert_eq!(neighbours[1], region);
    assert_eq!(neighbours[0], Region::from_xy(9, 20));
    assert_eq!(neighbours[2], Region::from_xy(11, 20));
    assert_eq!(neighbours[3], Region::from_xy(9, 19));
    assert_eq!(neighbours[8], Region::from_xy(11, 21));
}

#[test]
fn server_message_frame_classification() {
    assert!(ServerPacket::PatchResponse.is_massive());
    assert!(ServerPacket::GatewayNoticeResponse.is_massive());
    assert!(!ServerPacket::LoginResponse.is_massive());
    assert!(ServerPacket::LoginResponse.is_encrypted());
    assert!(!ServerPacket::CharacterSpawnStart.is_encrypted());
}

#[test]
fn server_message_opcodes() {
    assert_eq!(ServerPacket::CharacterSpawnStart.opcode(), 0x34A5);
    assert_eq!(ServerPacket::CharacterSpawnEnd.opcode(), 0x34A6);
    assert_eq!(ServerPacket::EntityDespawn { id: 3 }.opcode(), 0x3016);
    assert_eq!(ServerPacket::GroupEntitySpawnEnd.opcode(), 0x3018);
    assert_eq!(
        ServerPacket::WeatherUpdate(WeatherUpdate::new(WeatherType::Rain, 3)).opcode(),
        0x3809
    );
}

#[test]
fn protocol_builders_fill_constants() {
    let lunar = LunarEventInfo::new(3, 9);
    assert_eq!(lunar.unknown_4, 0x7535);
    assert_eq!(lunar.current_achieved, 3);
    let celestial = CelestialUpdate::new(7, 100, 12, 30);
    assert_eq!(celestial.unique_id, 7);
    let update = EntityUpdateState::life(5, AliveState::Dead);
    assert_eq!(update.update, UpdatedState::Life(AliveState::Dead));
    let note = GameNotification::uniquespawned(1933);
    assert_eq!(note, GameNotification::UniqueSpawned { ref_id: 1933 });
    match TargetEntityResult::success_monster(4, 250) {
        TargetEntityResult::Success { unique_id, health, .. } => {
            assert_eq!(unique_id, 4);
            assert_eq!(health, Some(250));
        }
        other => panic!("unexpected result: {:?}", other),
    }
}

fn spot(x_tenths: i32) -> Position {
    Position {
        region: Region::new(25000),
        x_tenths,
        y_tenths: 200,
        z_tenths: 450,
        heading: 17,
    }
}

#[test]
fn movement_start_carries_source_and_destination() {
    let entity = GameEntity { ref_id: 1907, unique_id: 11 };
    let update = MovementUpdate::StartMove {
        current: spot(1230),
        destination: spot(4560),
    };
    match update_movement_for(&entity, &update) {
        ServerPacket::PlayerMovementResponse(response) => {
            assert_eq!(response.player_id, 11);
            assert_eq!(
                response.destination,
                MovementDestination::Location { region: 25000, x: 456, y: 20, z: 45 }
            );
            let source = response.source.expect("a started move carries its source");
            assert_eq!(source.region, 25000);
            assert_eq!(source.x_tenths, 1230);
            assert_eq!(source.y_tenths, 200);
            assert_eq!(source.z_tenths, 450);
        }
        other => panic!("unexpected message: {:?}", other),
    }
}

#[test]
fn movement_stop_and_turn_forms() {
    let entity = GameEntity { ref_id: 1907, unique_id: 11 };
    match update_movement_for(&entity, &MovementUpdate::StopMove { current: spot(1230) }) {
        ServerPacket::PlayerMovementResponse(response) => {
            assert!(response.source.is_none());
            assert_eq!(
                response.destination,
                MovementDestination::Location { region: 25000, x: 123, y: 20, z: 45 }
            );
        }
        other => panic!("unexpected message: {:?}", other),
    }
    match update_movement_for(&entity, &MovementUpdate::Turn { heading: 99 }) {
        ServerPacket::PlayerMovementResponse(response) => {
            assert_eq!(
                response.destination,
                MovementDestination::Direction { moving: false, heading: 99 }
            );
        }
        other => panic!("unexpected message: {:?}", other),
    }
}

#[test]
fn single_despawn_uses_the_plain_message() {
    let mut sync = Synchronize::new();
    sync.add_despawned(42);
    let msgs = send_despawns(&sync);
    assert_eq!(msgs, vec![ServerPacket::EntityDespawn { id: 42 }]);
}

#[test]
fn mass_despawn_uses_the_grouped_envelope() {
    let mut sync = Synchronize::new();
    sync.add_despawned(42);
    sync.add_despawned(43);
    sync.add_despawned(44);
    let msgs = send_despawns(&sync);
    assert_eq!(msgs.len(), 3);
    assert_eq!(
        msgs[0],
        ServerPacket::GroupEntitySpawnStart { kind: GroupSpawnType::Despawn, count: 3 }
    );
    match &msgs[1] {
        ServerPacket::GroupEntitySpawnData { contents } => {
            assert_eq!(
                contents,
                &vec![
                    GroupSpawnDataContent::Despawn { id: 42 },
                    GroupSpawnDataContent::Despawn { id: 43 },
                    GroupSpawnDataContent::Despawn { id: 44 },
                ]
            );
        }
        other => panic!("unexpected data message: {:?}", other),
    }
    assert_eq!(msgs[2], ServerPacket::GroupEntitySpawnEnd);
}

#[test]
fn client_update_orders_movement_before_despawns() {
    let entity = GameEntity { ref_id: 1907, unique_id: 11 };
    let mut sync = Synchronize::new();
    sync.set_movement(MovementUpdate::Turn { heading: 5 });
    sync.add_despawned(42);
    let msgs = update_client(&entity, &sync);
    assert_eq!(msgs.len(), 2);
    assert!(matches!(msgs[0], ServerPacket::PlayerMovementResponse(_)));
    assert_eq!(msgs[1], ServerPacket::EntityDespawn { id: 42 });
    let empty = Synchronize::new();
    assert!(update_client(&entity, &empty).is_empty());
}

#[test]
fn observers_get_movement_of_visible_entities_only() {
    let visible = vec![2u32, 3u32];
    let others = vec![
        (GameEntity { ref_id: 1, unique_id: 2 }, Some(MovementUpdate::Turn { heading: 5 })),
        (GameEntity { ref_id: 1, unique_id: 4 }, Some(MovementUpdate::Turn { heading: 6 })),
        (GameEntity { ref_id: 1, unique_id: 3 }, None),
    ];
    let msgs = sync_changes_others(&visible, &others);
    assert_eq!(msgs.len(), 1);
    match &msgs[0] {
        ServerPacket::PlayerMovementResponse(response) => assert_eq!(response.player_id, 2),
        other => panic!("unexpected message: {:?}", other),
    }
}

#[test]
fn game_packets_land_in_the_input_buffer() {
    let mut input = PlayerInput::new();
    let (replies, event) = route_game_packet(&mut input, ClientPacket::Rotation { heading: 5 });
    assert!(replies.is_empty());
    assert!(event.is_none());
    assert_eq!(input.rotation, Some(5));
    let (_, event) = route_game_packet(&mut input, ClientPacket::FinishLoading);
    assert_eq!(event, Some(GameInputEvent::LoadingFinished));
    let (replies, _) = route_game_packet(&mut input, ClientPacket::UpdateGameGuide { page: 4 });
    assert_eq!(replies, vec![ServerPacket::GameGuideResponse { page: 4 }]);
    route_game_packet(
        &mut input,
        ClientPacket::InventoryOperation {
            data: InventoryOperationRequest::DropGold { amount: 10 },
        },
    );
    assert!(input.inventory.is_some());
    input.reset();
    assert!(input.rotation.is_none());
    assert!(input.inventory.is_none());
}

#[test]
fn idle_connections_time_out() {
    let mut input = PlayerInput::new();
    let mut last_action: u64 = 1000;
    // traffic refreshes the stamp
    let (_, _, timed_out) = receive_game_inputs(
        &mut input,
        vec![ClientPacket::Rotation { heading: 5 }],
        &mut last_action,
        5000,
        10_000,
    );
    assert!(!timed_out);
    assert_eq!(last_action, 5000);
    // a silent connection past the limit is disconnected
    let (_, _, timed_out) =
        receive_game_inputs(&mut input, Vec::new(), &mut last_action, 20_000, 10_000);
    assert!(timed_out);
    assert_eq!(last_action, 5000);
}

#[test]
fn login_packets_land_in_the_login_buffer() {
    let mut input = LoginInput::new();
    let replies = route_login_packet(
        &mut input,
        ClientPacket::CharacterJoinRequest { character_name: "Aria".to_string() },
    );
    assert!(replies.is_empty());
    assert_eq!(input.join.as_deref(), Some("Aria"));
    let replies = route_login_packet(
        &mut input,
        ClientPacket::IdentityInformation { module_name: "Client".to_string(), locality: 0 },
    );
    assert_eq!(replies.len(), 1);
    match &replies[0] {
        ServerPacket::IdentityInformation { module_name, locality } => {
            assert_eq!(*module_name, ModuleName::AgentServer);
            assert_eq!(module_name.text(), "AgentServer");
            assert_eq!(*locality, 0);
        }
        other => panic!("unexpected reply: {:?}", other),
    }
}

#[test]
fn consignment_requests_get_the_empty_answer() {
    let mut input = PlayerInput::new();
    let (replies, event) = route_game_packet(&mut input, ClientPacket::ConsignmentList);
    assert_eq!(replies, vec![ServerPacket::ConsignmentResponse]);
    assert!(event.is_none());
}

#[test]
fn accumulated_damage_reaches_the_client() {
    let entity = GameEntity { ref_id: 1933, unique_id: 9 };
    let mut sync = Synchronize::new();
    sync.add_damage(DamageReceiveEvent {
        source: EntityReference(1, GameEntity { ref_id: 1907, unique_id: 1 }),
        target: EntityReference(9, entity),
        attack: AttackDefinition { skill_ref: 3, instance: 0 },
        amount: 42,
    });
    let msgs = update_client(&entity, &sync);
    assert_eq!(
        msgs,
        vec![ServerPacket::EntityBarsUpdate(EntityBarsUpdate {
            unique_id: 9,
            source: EntityBarUpdateSource::Damage,
            updates: EntityBarUpdates::HP { amount: 42 },
        })]
    );
}

#[test]
fn wire_time_counts_from_the_epoch() {
    assert_eq!(as_wire_time(946684800), 0);
    assert_eq!(as_wire_time(946684800 - 5), 0);
    assert_eq!(as_wire_time(946684800 + 3600), 3600);
}

#[test]
fn positions_convert_to_global_coordinates() {
    let position = spot(1230);
    let location = position.location();
    // region 25000 sits at grid x 168, y 97
    assert_eq!(Region::new(25000).x(), 168);
    assert_eq!(Region::new(25000).y(), 97);
    assert_eq!(location.x_tenths, 168 * 19200 + 1230);
    assert_eq!(location.z_tenths, 97 * 19200 + 450);
    assert_eq!(location.y_tenths, 200);
    let back = silkroad_core::position::position_from_global(location, 17);
    assert_eq!(back, position);
}

#[test]
fn standard_schedule_is_conflict_free() {
    let schedule = standard_schedule();
    assert!(validate_schedule(&schedule));
    // two concurrent Execute systems writing the same component type are refused
    let clashing = vec![
        SystemDeclaration {
            phase: Phase::Execute,
            step: 0,
            reads: vec![ComponentKind::Identity],
            writes: vec![ComponentKind::Slots],
        },
        SystemDeclaration {
            phase: Phase::Execute,
            step: 0,
            reads: vec![ComponentKind::Identity],
            writes: vec![ComponentKind::Slots],
        },
    ];
    assert!(!validate_schedule(&clashing));
    // the same pair in ordered steps is fine
    let split = vec![
        SystemDeclaration {
            phase: Phase::Execute,
            step: 0,
            reads: vec![ComponentKind::Identity],
            writes: vec![ComponentKind::Slots],
        },
        SystemDeclaration {
            phase: Phase::Execute,
            step: 1,
            reads: vec![ComponentKind::Identity],
            writes: vec![ComponentKind::Slots],
        },
    ];
    assert!(validate_schedule(&split));
}

#[test]
fn spawner_population_bookkeeping() {
    let mut spawner = Spawner::new(&SpawnOptions { radius_tenths: 500, amount: 2 }, 1933);
    assert!(spawner.has_spots_available());
    spawner.record_spawn();
    spawner.record_spawn();
    assert!(!spawner.has_spots_available());
    spawner.record_death();
    assert!(spawner.has_spots_available());
}

#[test]
fn gold_pouch_gains_and_spends() {
    let mut pouch = GoldPouch::new(100);
    pouch.gain(50);
    assert_eq!(pouch.amount(), 150);
    pouch.spend(150);
    assert_eq!(pouch.amount(), 0);
}
