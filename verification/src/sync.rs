use vstd::prelude::*;
use crate::action::DamageReceiveEvent;
use crate::entity::GameEntity;
use crate::messages::ServerPacket;
use crate::position::Position;
use crate::protocol::{
    EntityBarUpdateSource, EntityBarUpdates, EntityBarsUpdate, GroupSpawnDataContent,
    GroupSpawnType, MovementDestination, MovementSource, PlayerMovementResponse,
};

verus! {

/// A pending movement-state change: a move that started, a move that ended,
/// or a turn in place.
#[derive(Copy, Clone, Eq, PartialEq, Structural, Debug)]
pub enum MovementUpdate {
    StartMove { current: Position, destination: Position },
    StopMove { current: Position },
    Turn { heading: u16 },
}

/// The per-entity accumulator of changes pending delivery to observers.
/// Appended to during the Execute phase, drained during Cleanup; it never
/// carries state across more than one Broadcast phase.
#[derive(Clone, Eq, PartialEq, Debug)]
pub struct Synchronize {
    pub movement: Option<MovementUpdate>,
    pub damage: Vec<DamageReceiveEvent>,
    pub despawned: Vec<u32>,
}

impl Synchronize {
    /// Nothing is pending.
    pub open spec fn spec_is_empty(&self) -> bool {
        &&& self.movement is None
        &&& self.damage@.len() == 0
        &&& self.despawned@.len() == 0
    }

    pub fn new() -> (r: Synchronize)
        ensures
            r.spec_is_empty(),
    {
        Synchronize { movement: None, damage: Vec::new(), despawned: Vec::new() }
    }

    /// Drain every pending change; runs in the Cleanup step of each tick.
    pub fn clear(&mut self)
        ensures
            final(self).spec_is_empty(),
    {
        self.movement = None;
        self.damage.clear();
        self.despawned.clear();
    }

    pub fn set_movement(&mut self, update: MovementUpdate)
        ensures
            final(self).movement == Some(update),
            final(self).damage == old(self).damage,
            final(self).despawned == old(self).despawned,
    {
        self.movement = Some(update);
    }

    pub fn add_damage(&mut self, event: DamageReceiveEvent)
        ensures
            final(self).damage@ == old(self).damage@.push(event),
            final(self).movement == old(self).movement,
            final(self).despawned == old(self).despawned,
    {
        self.damage.push(event);
    }

    pub fn add_despawned(&mut self, unique_id: u32)
        ensures
            final(self).despawned@ == old(self).despawned@.push(unique_id),
            final(self).movement == old(self).movement,
            final(self).damage == old(self).damage,
    {
        self.despawned.push(unique_id);
    }
}

/// A local tenth-coordinate as whole wire units, clamped to the unsigned
/// 16-bit range.
pub open spec fn spec_wire_units(t: i32) -> u16 {
    if t <= 0 {
        0u16
    } else if t / 10 > 65535 {
        65535u16
    } else {
        (t / 10) as u16
    }
}

pub fn wire_units(t: i32) -> (r: u16)
    ensures
        r == spec_wire_units(t),
{
    if t <= 0 {
        0
    } else if t / 10 > 65535 {
        65535
    } else {
        (t / 10) as u16
    }
}

/// A tenth-coordinate clamped to the unsigned 16-bit wire range.
pub open spec fn spec_clamp_tenths(t: i32) -> u16 {
    if t <= 0 {
        0u16
    } else if t > 65535 {
        65535u16
    } else {
        t as u16
    }
}

pub fn clamp_tenths(t: i32) -> (r: u16)
    ensures
        r == spec_clamp_tenths(t),
{
    if t <= 0 {
        0
    } else if t > 65535 {
        65535
    } else {
        t as u16
    }
}

/// The movement message owed for one pending movement change of `entity`.
pub open spec fn spec_movement_message(entity: GameEntity, movement: MovementUpdate) -> ServerPacket {
    match movement {
        MovementUpdate::StartMove { current, destination } => ServerPacket::PlayerMovementResponse(
            PlayerMovementResponse {
                player_id: entity.unique_id,
                destination: MovementDestination::Location {
                    region: destination.region.spec_id(),
                    x: spec_wire_units(destination.x_tenths),
                    y: spec_wire_units(destination.y_tenths),
                    z: spec_wire_units(destination.z_tenths),
                },
                source: Some(
                    MovementSource {
                        region: current.region.spec_id(),
                        x_tenths: spec_clamp_tenths(current.x_tenths),
                        y_tenths: current.y_tenths,
                        z_tenths: spec_clamp_tenths(current.z_tenths),
                    },
                ),
            },
        ),
        MovementUpdate::StopMove { current } => ServerPacket::PlayerMovementResponse(
            PlayerMovementResponse {
                player_id: entity.unique_id,
                destination: MovementDestination::Location {
                    region: current.region.spec_id(),
                    x: spec_wire_units(current.x_tenths),
                    y: spec_wire_units(current.y_tenths),
                    z: spec_wire_units(current.z_tenths),
                },
                source: None,
            },
        ),
        MovementUpdate::Turn { heading } => ServerPacket::PlayerMovementResponse(
            PlayerMovementResponse {
                player_id: entity.unique_id,
                destination: MovementDestination::Direction { moving: false, heading },
                source: None,
            },
        ),
    }
}

/// Translate one pending movement change into the message its observers get:
/// a started move carries the source in tenths and the destination in whole
/// units, a stop carries only the final spot, a turn only the heading.
pub fn update_movement_for(entity: &GameEntity, movement: &MovementUpdate) -> (r: ServerPacket)
    ensures
        r == spec_movement_message(*entity, *movement),
{
    match movement {
        MovementUpdate::StartMove { current, destination } => {
            ServerPacket::PlayerMovementResponse(
                PlayerMovementResponse {
                    player_id: entity.unique_id,
                    destination: MovementDestination::Location {
                        region: destination.region.id(),
                        x: wire_units(destination.x_tenths),
                        y: wire_units(destination.y_tenths),
                        z: wire_units(destination.z_tenths),
                    },
                    source: Some(
                        MovementSource {
                            region: current.region.id(),
                            x_tenths: clamp_tenths(current.x_tenths),
                            y_tenths: current.y_tenths,
                            z_tenths: clamp_tenths(current.z_tenths),
                        },
                    ),
                },
            )
        },
        MovementUpdate::StopMove { current } => {
            ServerPacket::PlayerMovementResponse(
                PlayerMovementResponse {
                    player_id: entity.unique_id,
                    destination: MovementDestination::Location {
                        region: current.region.id(),
                        x: wire_units(current.x_tenths),
                        y: wire_units(current.y_tenths),
                        z: wire_units(current.z_tenths),
                    },
                    source: None,
                },
            )
        },
        MovementUpdate::Turn { heading } => {
            ServerPacket::PlayerMovementResponse(
                PlayerMovementResponse {
                    player_id: entity.unique_id,
                    destination: MovementDestination::Direction {
                        moving: false,
                        heading: *heading,
                    },
                    source: None,
                },
            )
        },
    }
}

/// The batched despawn envelope owed for a non-empty despawn list: a grouped
/// start/data/end envelope for more than one id, a single despawn message
/// for exactly one.
pub open spec fn spec_despawn_messages_ok(despawned: Seq<u32>, msgs: Seq<ServerPacket>) -> bool {
    if despawned.len() > 1 {
        &&& msgs.len() == 3
        &&& msgs[0] == (ServerPacket::GroupEntitySpawnStart {
            kind: GroupSpawnType::Despawn,
            count: despawned.len() as u16,
        })
        &&& msgs[1] matches ServerPacket::GroupEntitySpawnData { contents } && contents@ =~= Seq::new(
            despawned.len(),
            |i: int| GroupSpawnDataContent::Despawn { id: despawned[i] },
        )
        &&& msgs[2] == ServerPacket::GroupEntitySpawnEnd
    } else {
        msgs =~= seq![ServerPacket::EntityDespawn { id: despawned[0] }]
    }
}

pub fn send_despawns(sync: &Synchronize) -> (r: Vec<ServerPacket>)
    requires
        0 < sync.despawned@.len() <= u16::MAX,
    ensures
        spec_despawn_messages_ok(sync.despawned@, r@),
{
    let mut r: Vec<ServerPacket> = Vec::new();
    if sync.despawned.len() > 1 {
        r.push(
            ServerPacket::GroupEntitySpawnStart {
                kind: GroupSpawnType::Despawn,
                count: sync.despawned.len() as u16,
            },
        );
        let mut contents: Vec<GroupSpawnDataContent> = Vec::new();
        let mut i: usize = 0;
        while i < sync.despawned.len()
            invariant
                i <= sync.despawned@.len(),
                contents@.len() == i,
                forall|j: int|
                    0 <= j < i ==> contents@[j] == (GroupSpawnDataContent::Despawn {
                        id: sync.despawned@[j],
                    }),
            decreases sync.despawned@.len() - i,
        {
            contents.push(GroupSpawnDataContent::Despawn { id: sync.despawned[i] });
            i = i + 1;
        }
        proof {
            assert(contents@ =~= Seq::new(
                sync.despawned@.len(),
                |i: int| GroupSpawnDataContent::Despawn { id: sync.despawned@[i] },
            ));
        }
        r.push(ServerPacket::GroupEntitySpawnData { contents });
        r.push(ServerPacket::GroupEntitySpawnEnd);
    } else {
        r.push(ServerPacket::EntityDespawn { id: sync.despawned[0] });
    }
    r
}

/// The notification owed for one accumulated damage event on this entity:
/// its health bar moved by the damage amount.
pub open spec fn spec_damage_message(
    entity: GameEntity,
    event: DamageReceiveEvent,
) -> ServerPacket {
    ServerPacket::EntityBarsUpdate(
        EntityBarsUpdate {
            unique_id: entity.unique_id,
            source: EntityBarUpdateSource::Damage,
            updates: EntityBarUpdates::HP { amount: event.amount },
        },
    )
}

/// The whole per-client batch owed for one entity's accumulator: the pending
/// movement change, then one notification per accumulated damage event, then
/// the batched despawns; an empty accumulator owes nothing.
pub open spec fn spec_client_update_ok(
    entity: GameEntity,
    sync: Synchronize,
    msgs: Seq<ServerPacket>,
) -> bool {
    let movement_count: int = if sync.movement is Some {
        1
    } else {
        0
    };
    let damage_count: int = sync.damage@.len() as int;
    &&& sync.movement matches Some(movement) ==> msgs.len() >= 1 && msgs[0]
        == spec_movement_message(entity, movement)
    &&& msgs.len() >= movement_count + damage_count
    &&& forall|i: int|
        0 <= i < damage_count ==> msgs[movement_count + i] == spec_damage_message(
            entity,
            sync.damage@[i],
        )
    &&& if sync.despawned@.len() > 0 {
        spec_despawn_messages_ok(sync.despawned@, msgs.skip(movement_count + damage_count))
    } else {
        msgs.len() == movement_count + damage_count
    }
}

/// Translate one entity's accumulated changes into the messages its own
/// client is owed this tick: the movement update, the damage notifications,
/// and the despawn batch, in that order.
pub fn update_client(entity: &GameEntity, sync: &Synchronize) -> (r: Vec<ServerPacket>)
    requires
        sync.despawned@.len() <= u16::MAX,
    ensures
        spec_client_update_ok(*entity, *sync, r@),
{
    let mut r: Vec<ServerPacket> = Vec::new();
    if let Some(movement) = &sync.movement {
        r.push(update_movement_for(entity, movement));
    }
    let ghost movement_count = r@.len() as int;
    let mut i: usize = 0;
    while i < sync.damage.len()
        invariant
            i <= sync.damage@.len(),
            r@.len() == movement_count + i,
            movement_count == if sync.movement is Some {
                1int
            } else {
                0int
            },
            sync.movement matches Some(movement) ==> r@.len() >= 1 && r@[0]
                == spec_movement_message(*entity, movement),
            forall|k: int|
                0 <= k < i ==> r@[movement_count + k] == spec_damage_message(
                    *entity,
                    sync.damage@[k],
                ),
        decreases sync.damage@.len() - i,
    {
        r.push(
            ServerPacket::EntityBarsUpdate(
                EntityBarsUpdate {
                    unique_id: entity.unique_id,
                    source: EntityBarUpdateSource::Damage,
                    updates: EntityBarUpdates::HP { amount: sync.damage[i].amount },
                },
            ),
        );
        i = i + 1;
    }
    let ghost head_part = r@;
    if sync.despawned.len() > 0 {
        let mut despawns = send_despawns(sync);
        let ghost despawn_part = despawns@;
        r.append(&mut despawns);
        proof {
            assert(r@.skip(head_part.len() as int) =~= despawn_part);
        }
    }
    r
}

/// For one observing player: the movement messages owed for every visible
/// entity with a pending movement change, in visibility order; entities the
/// world no longer resolves contribute nothing.
pub open spec fn spec_changes_for_observer(
    visible: Seq<u32>,
    others: Seq<(GameEntity, Option<MovementUpdate>)>,
) -> Seq<ServerPacket>
    decreases visible.len(),
{
    if visible.len() == 0 {
        Seq::<ServerPacket>::empty()
    } else {
        let head = match spec_first_with_uid(others, visible[0]) {
            Some(entry) => match entry.1 {
                Some(movement) => seq![spec_movement_message(entry.0, movement)],
                None => Seq::<ServerPacket>::empty(),
            },
            None => Seq::<ServerPacket>::empty(),
        };
        head + spec_changes_for_observer(visible.drop_first(), others)
    }
}

/// The first entry whose entity carries the given runtime id.
pub open spec fn spec_first_with_uid(
    others: Seq<(GameEntity, Option<MovementUpdate>)>,
    unique_id: u32,
) -> Option<(GameEntity, Option<MovementUpdate>)>
    decreases others.len(),
{
    if others.len() == 0 {
        None
    } else if others[0].0.unique_id == unique_id {
        Some(others[0])
    } else {
        spec_first_with_uid(others.drop_first(), unique_id)
    }
}

fn first_with_uid(others: &Vec<(GameEntity, Option<MovementUpdate>)>, unique_id: u32) -> (r:
    Option<(GameEntity, Option<MovementUpdate>)>)
    ensures
        r == spec_first_with_uid(others@, unique_id),
{
    let mut i: usize = 0;
    proof {
        assert(others@.skip(0) =~= others@);
    }
    while i < others.len()
        invariant
            i <= others@.len(),
            spec_first_with_uid(others@, unique_id) == spec_first_with_uid(
                others@.skip(i as int),
                unique_id,
            ),
        decreases others@.len() - i,
    {
        proof {
            assert(others@.skip(i as int)[0] == others@[i as int]);
            assert(others@.skip(i as int).drop_first() =~= others@.skip(i as int + 1));
        }
        if others[i].0.unique_id == unique_id {
            return Some(others[i]);
        }
        i = i + 1;
    }
    proof {
        assert(others@.skip(i as int).len() == 0);
    }
    None
}

/// For one observing player, produce the movement updates of every entity in
/// its visibility set that accumulated one this tick.
pub fn sync_changes_others(
    visible: &Vec<u32>,
    others: &Vec<(GameEntity, Option<MovementUpdate>)>,
) -> (r: Vec<ServerPacket>)
    ensures
        r@ =~= spec_changes_for_observer(visible@, others@),
{
    let mut r: Vec<ServerPacket> = Vec::new();
    let mut i: usize = 0;
    proof {
        assert(visible@.skip(0) =~= visible@);
    }
    while i < visible.len()
        invariant
            i <= visible@.len(),
            r@ + spec_changes_for_observer(visible@.skip(i as int), others@)
                =~= spec_changes_for_observer(visible@, others@),
        decreases visible@.len() - i,
    {
        proof {
            assert(visible@.skip(i as int)[0] == visible@[i as int]);
            assert(visible@.skip(i as int).drop_first() =~= visible@.skip(i as int + 1));
        }
        match first_with_uid(others, visible[i]) {
            Some(entry) => {
                match entry.1 {
                    Some(movement) => {
                        r.push(update_movement_for(&entry.0, &movement));
                    },
                    None => {},
                }
            },
            None => {},
        }
        i = i + 1;
    }
    proof {
        assert(visible@.skip(i as int).len() == 0);
        assert(spec_changes_for_observer(visible@.skip(i as int), others@) =~= Seq::<
            ServerPacket,
        >::empty());
    }
    r
}

} // verus!
