use vstd::prelude::*;
use crate::entity::GameEntity;
use crate::messages::ServerPacket;
use crate::position::{GlobalLocation, location_in_bounds, spec_distance_squared};
use crate::sync::Synchronize;

verus! {

/// Observation radii stay within this bound (in tenths), so squared
/// distances fit the arithmetic.
pub const MAX_VISIBILITY_RADIUS_TENTHS: u32 = 2000000;

/// The per-player visibility component: the observation radius and the set
/// of entities within it this tick, kept as their runtime ids in the order
/// the candidates were scanned.
#[derive(Clone, Eq, PartialEq, Debug)]
pub struct Visibility {
    pub radius_tenths: u32,
    pub entities_in_radius: Vec<u32>,
}

impl Visibility {
    pub fn with_radius(radius_tenths: u32) -> (r: Visibility)
        ensures
            r.radius_tenths == radius_tenths,
            r.entities_in_radius@.len() == 0,
    {
        Visibility { radius_tenths, entities_in_radius: Vec::new() }
    }
}

/// Whether a spot lies within the observation radius of a center.
pub open spec fn spec_within(center: GlobalLocation, radius_tenths: u32, p: GlobalLocation) -> bool {
    spec_distance_squared(center, p) <= radius_tenths * radius_tenths
}

pub fn within(center: GlobalLocation, radius_tenths: u32, p: GlobalLocation) -> (r: bool)
    requires
        location_in_bounds(center),
        location_in_bounds(p),
        radius_tenths <= MAX_VISIBILITY_RADIUS_TENTHS,
    ensures
        r == spec_within(center, radius_tenths, p),
{
    let d2 = crate::position::distance_squared(center, p);
    let radius = radius_tenths as i64;
    proof {
        assert(0 <= radius * radius <= 4000000000000int) by (nonlinear_arith)
            requires
                0 <= radius <= 2000000,
        ;
    }
    d2 <= radius * radius
}

/// The ids of the candidates within the radius, in scan order.
pub open spec fn spec_visible_ids(
    center: GlobalLocation,
    radius_tenths: u32,
    candidates: Seq<(GameEntity, GlobalLocation)>,
) -> Seq<u32>
    decreases candidates.len(),
{
    if candidates.len() == 0 {
        Seq::<u32>::empty()
    } else {
        let head = if spec_within(center, radius_tenths, candidates[0].1) {
            seq![candidates[0].0.unique_id]
        } else {
            Seq::<u32>::empty()
        };
        head + spec_visible_ids(center, radius_tenths, candidates.drop_first())
    }
}

/// The spawn messages owed for the candidates that are within the radius now
/// and were not in the previous visibility set, in scan order.
pub open spec fn spec_spawn_messages(
    center: GlobalLocation,
    radius_tenths: u32,
    candidates: Seq<(GameEntity, GlobalLocation)>,
    previous: Seq<u32>,
) -> Seq<ServerPacket>
    decreases candidates.len(),
{
    if candidates.len() == 0 {
        Seq::<ServerPacket>::empty()
    } else {
        let head = if spec_within(center, radius_tenths, candidates[0].1) && !previous.contains(
            candidates[0].0.unique_id,
        ) {
            seq![
                ServerPacket::EntitySpawn {
                    ref_id: candidates[0].0.ref_id,
                    unique_id: candidates[0].0.unique_id,
                },
            ]
        } else {
            Seq::<ServerPacket>::empty()
        };
        head + spec_spawn_messages(center, radius_tenths, candidates.drop_first(), previous)
    }
}

/// The ids that were visible before and are no longer, in their old order.
pub open spec fn spec_left_ids(previous: Seq<u32>, current: Seq<u32>) -> Seq<u32>
    decreases previous.len(),
{
    if previous.len() == 0 {
        Seq::<u32>::empty()
    } else {
        let head = if current.contains(previous[0]) {
            Seq::<u32>::empty()
        } else {
            seq![previous[0]]
        };
        head + spec_left_ids(previous.drop_first(), current)
    }
}

fn contains_id(v: &Vec<u32>, id: u32) -> (r: bool)
    ensures
        r == v@.contains(id),
{
    let mut i: usize = 0;
    while i < v.len()
        invariant
            i <= v@.len(),
            forall|j: int| 0 <= j < i ==> v@[j] != id,
        decreases v@.len() - i,
    {
        if v[i] == id {
            return true;
        }
        i = i + 1;
    }
    false
}

/// Recompute one player's visibility set from spatial distance against every
/// candidate: entities that entered the set are owed a full spawn message,
/// entities that left it are appended to the player's despawn accumulator,
/// to go out batched in the same Broadcast phase.
pub fn player_visibility_update(
    visibility: &mut Visibility,
    center: GlobalLocation,
    candidates: &Vec<(GameEntity, GlobalLocation)>,
    sync: &mut Synchronize,
) -> (spawns: Vec<ServerPacket>)
    requires
        location_in_bounds(center),
        old(visibility).radius_tenths <= MAX_VISIBILITY_RADIUS_TENTHS,
        forall|i: int| 0 <= i < candidates@.len() ==> location_in_bounds(
            (#[trigger] candidates@[i]).1,
        ),
    ensures
        final(visibility).radius_tenths == old(visibility).radius_tenths,
        final(visibility).entities_in_radius@ =~= spec_visible_ids(
            center,
            old(visibility).radius_tenths,
            candidates@,
        ),
        spawns@ =~= spec_spawn_messages(
            center,
            old(visibility).radius_tenths,
            candidates@,
            old(visibility).entities_in_radius@,
        ),
        final(sync).despawned@ =~= old(sync).despawned@ + spec_left_ids(
            old(visibility).entities_in_radius@,
            final(visibility).entities_in_radius@,
        ),
        final(sync).movement == old(sync).movement,
        final(sync).damage == old(sync).damage,
{
    let radius = visibility.radius_tenths;
    let mut new_set: Vec<u32> = Vec::new();
    let mut spawns: Vec<ServerPacket> = Vec::new();
    let mut i: usize = 0;
    proof {
        assert(candidates@.skip(0) =~= candidates@);
    }
    while i < candidates.len()
        invariant
            i <= candidates@.len(),
            radius == old(visibility).radius_tenths,
            radius <= MAX_VISIBILITY_RADIUS_TENTHS,
            location_in_bounds(center),
            forall|k: int| 0 <= k < candidates@.len() ==> location_in_bounds(
                (#[trigger] candidates@[k]).1,
            ),
            visibility.entities_in_radius == old(visibility).entities_in_radius,
            new_set@ + spec_visible_ids(center, radius, candidates@.skip(i as int))
                =~= spec_visible_ids(center, radius, candidates@),
            spawns@ + spec_spawn_messages(
                center,
                radius,
                candidates@.skip(i as int),
                old(visibility).entities_in_radius@,
            ) =~= spec_spawn_messages(
                center,
                radius,
                candidates@,
                old(visibility).entities_in_radius@,
            ),
        decreases candidates@.len() - i,
    {
        proof {
            assert(candidates@.skip(i as int)[0] == candidates@[i as int]);
            assert(candidates@.skip(i as int).drop_first() =~= candidates@.skip(i as int + 1));
        }
        let candidate = candidates[i];
        if within(center, radius, candidate.1) {
            new_set.push(candidate.0.unique_id);
            if !contains_id(&visibility.entities_in_radius, candidate.0.unique_id) {
                spawns.push(
                    ServerPacket::EntitySpawn {
                        ref_id: candidate.0.ref_id,
                        unique_id: candidate.0.unique_id,
                    },
                );
            }
        }
        i = i + 1;
    }
    proof {
        assert(candidates@.skip(i as int).len() == 0);
        assert(spec_visible_ids(center, radius, candidates@.skip(i as int)) =~= Seq::<u32>::empty());
        assert(spec_spawn_messages(
            center,
            radius,
            candidates@.skip(i as int),
            old(visibility).entities_in_radius@,
        ) =~= Seq::<ServerPacket>::empty());
    }
    // append the ids that left the set to the despawn accumulator
    let mut j: usize = 0;
    proof {
        assert(visibility.entities_in_radius@.skip(0) =~= visibility.entities_in_radius@);
    }
    while j < visibility.entities_in_radius.len()
        invariant
            j <= visibility.entities_in_radius@.len(),
            visibility.entities_in_radius == old(visibility).entities_in_radius,
            sync.despawned@ + spec_left_ids(
                visibility.entities_in_radius@.skip(j as int),
                new_set@,
            ) =~= old(sync).despawned@ + spec_left_ids(
                visibility.entities_in_radius@,
                new_set@,
            ),
            sync.movement == old(sync).movement,
            sync.damage == old(sync).damage,
        decreases visibility.entities_in_radius@.len() - j,
    {
        proof {
            assert(visibility.entities_in_radius@.skip(j as int)[0]
                == visibility.entities_in_radius@[j as int]);
            assert(visibility.entities_in_radius@.skip(j as int).drop_first()
                =~= visibility.entities_in_radius@.skip(j as int + 1));
        }
        let id = visibility.entities_in_radius[j];
        if !contains_id(&new_set, id) {
            sync.add_despawned(id);
        }
        j = j + 1;
    }
    proof {
        assert(visibility.entities_in_radius@.skip(j as int).len() == 0);
        assert(spec_left_ids(visibility.entities_in_radius@.skip(j as int), new_set@) =~= Seq::<
            u32,
        >::empty());
    }
    visibility.entities_in_radius = new_set;
    spawns
}

/// A candidate within the radius and not previously visible contributes its
/// spawn message.
pub proof fn lemma_spawn_message_present(
    center: GlobalLocation,
    radius_tenths: u32,
    candidates: Seq<(GameEntity, GlobalLocation)>,
    previous: Seq<u32>,
    i: int,
)
    requires
        0 <= i < candidates.len(),
        spec_within(center, radius_tenths, candidates[i].1),
        !previous.contains(candidates[i].0.unique_id),
    ensures
        spec_spawn_messages(center, radius_tenths, candidates, previous).contains(
            ServerPacket::EntitySpawn {
                ref_id: candidates[i].0.ref_id,
                unique_id: candidates[i].0.unique_id,
            },
        ),
    decreases candidates.len(),
{
    if i == 0 {
        let msgs = spec_spawn_messages(center, radius_tenths, candidates, previous);
        assert(msgs[0] == (ServerPacket::EntitySpawn {
            ref_id: candidates[0].0.ref_id,
            unique_id: candidates[0].0.unique_id,
        }));
    } else {
        lemma_spawn_message_present(
            center,
            radius_tenths,
            candidates.drop_first(),
            previous,
            i - 1,
        );
        let rest = spec_spawn_messages(center, radius_tenths, candidates.drop_first(), previous);
        let msg = ServerPacket::EntitySpawn {
            ref_id: candidates[i].0.ref_id,
            unique_id: candidates[i].0.unique_id,
        };
        assert(candidates.drop_first()[i - 1] == candidates[i]);
        let k = choose|k: int| 0 <= k < rest.len() && rest[k] == msg;
        let whole = spec_spawn_messages(center, radius_tenths, candidates, previous);
        let head_len = whole.len() - rest.len();
        assert(whole[head_len + k] == msg);
    }
}

/// Law: when two players stand within each other's observation radius and
/// neither was in the other's visibility set, the tick that recomputes
/// visibility owes each a spawn message for the other.
pub proof fn lemma_mutual_visibility(
    a_center: GlobalLocation,
    a_radius: u32,
    a_candidates: Seq<(GameEntity, GlobalLocation)>,
    a_previous: Seq<u32>,
    b_center: GlobalLocation,
    b_radius: u32,
    b_candidates: Seq<(GameEntity, GlobalLocation)>,
    b_previous: Seq<u32>,
    a_entity: GameEntity,
    b_entity: GameEntity,
    i: int,
    j: int,
)
    requires
        0 <= i < a_candidates.len(),
        a_candidates[i] == (b_entity, b_center),
        0 <= j < b_candidates.len(),
        b_candidates[j] == (a_entity, a_center),
        spec_distance_squared(a_center, b_center) <= a_radius * a_radius,
        spec_distance_squared(b_center, a_center) <= b_radius * b_radius,
        !a_previous.contains(b_entity.unique_id),
        !b_previous.contains(a_entity.unique_id),
    ensures
        spec_spawn_messages(a_center, a_radius, a_candidates, a_previous).contains(
            ServerPacket::EntitySpawn { ref_id: b_entity.ref_id, unique_id: b_entity.unique_id },
        ),
        spec_spawn_messages(b_center, b_radius, b_candidates, b_previous).contains(
            ServerPacket::EntitySpawn { ref_id: a_entity.ref_id, unique_id: a_entity.unique_id },
        ),
{
    lemma_spawn_message_present(a_center, a_radius, a_candidates, a_previous, i);
    lemma_spawn_message_present(b_center, b_radius, b_candidates, b_previous, j);
}

} // verus!
