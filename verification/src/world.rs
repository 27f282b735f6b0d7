use vstd::prelude::*;
use vstd::std_specs::convert::FromSpec;
use crate::action::{
    Action, ActionDescription, ActionTarget, AttackDefinition, DamageReceiveEvent, UNARMED_DAMAGE,
    BASELINE_DAMAGE, advance_action, damage_bound_u64, resolve_damage_amount, spec_advance,
};
use crate::entity::{AttackInstanceCounter, EntityReference, GameEntity, IdAllocator};
use crate::inputs::{GameInputEvent, route_game_packet, spec_route_game};
use crate::inventory_ops::{SpawnDrop, handle_inventory_input};
use crate::item::ItemTypeData;
use crate::messages::{ClientPacket, ServerPacket};
use crate::pickup::pickup_tick;
use crate::position::{Position, lemma_location_bounded};
use crate::protocol::{PerformActionError, PerformActionResponse};
use crate::store::{Components, DroppedItem, EntityHandle, EntityStore, Slot};
use crate::sync::{Synchronize, sync_changes_others, update_client, MovementUpdate};
use crate::visibility::{MAX_VISIBILITY_RADIUS_TENTHS, player_visibility_update};

verus! {

/// The weapon equipment slot index.
pub const WEAPON_SLOT: u8 = 6;

/// The most gold a pouch may hold; grants that would exceed it wait.
pub const MAX_GOLD: u64 = 0x7fffffffffffffff;

/// A live entity's components are well-formed: its position is on the grid,
/// its inventory holds well-formed items within an indexable size, its
/// visibility radius is bounded, its action timings fit a countdown, a
/// carried ground item is well-formed, and its gold balance stays under the
/// cap.
pub open spec fn components_wf(c: Components) -> bool {
    &&& c.position.wf()
    &&& match c.inventory {
        Some(inv) => inv.wf() && inv@.len() <= u8::MAX,
        None => true,
    }
    &&& match c.visibility {
        Some(v) => v.radius_tenths <= MAX_VISIBILITY_RADIUS_TENTHS,
        None => true,
    }
    &&& match c.action {
        Some(a) => a.skill.timings.wf(),
        None => true,
    }
    &&& match c.dropped {
        Some(d) => crate::inventory::item_wf(d.item),
        None => true,
    }
    &&& match c.gold {
        Some(g) => g.spec_amount() <= MAX_GOLD,
        None => true,
    }
}

pub open spec fn slot_wf(s: Slot) -> bool {
    match s.occupant {
        Some(c) => components_wf(c),
        None => true,
    }
}

/// Every live entity in the store is well-formed.
pub open spec fn store_wf(slots: Seq<Slot>) -> bool {
    forall|i: int| 0 <= i < slots.len() ==> slot_wf(#[trigger] slots[i])
}

/// Every synchronization accumulator and every input buffer is empty: the
/// state every tick leaves the world in, and so the state in which the next
/// tick's Input phase finds it.
pub open spec fn all_accumulators_clear(slots: Seq<Slot>) -> bool {
    forall|i: int|
        0 <= i < slots.len() ==> match (#[trigger] slots[i]).occupant {
            Some(c) => c.synchronize.spec_is_empty() && match c.input {
                Some(inp) => inp.spec_is_empty(),
                None => true,
            },
            None => true,
        }
}

/// The view of an outbound batch table: each entry's message list as a
/// sequence.
pub open spec fn spec_out_view(out: Seq<(u32, Vec<ServerPacket>)>) -> Seq<(u32, Seq<ServerPacket>)> {
    out.map_values(|p: (u32, Vec<ServerPacket>)| (p.0, p.1@))
}

/// Whether a routed packet finds its addressee: a live handle whose occupant
/// carries an input buffer.
pub open spec fn input_packet_applies(slots: Seq<Slot>, e: EntityHandle) -> bool {
    &&& e.index < slots.len()
    &&& slots[e.index as int].generation == e.generation
    &&& slots[e.index as int].occupant matches Some(c) && c.input is Some
}

/// One slot taking one packet: only the input buffer changes, per the
/// routing of the packet against it.
pub open spec fn input_slot_rel(before: Slot, after: Slot, packet: ClientPacket) -> bool {
    &&& after.generation == before.generation
    &&& before.occupant matches Some(a)
    &&& after.occupant matches Some(b)
    &&& before.occupant matches Some(a) && after.occupant matches Some(b) && ({
        &&& a.input matches Some(ia)
        &&& b == (Components { input: b.input, ..a })
        &&& b.input matches Some(ib)
        &&& a.input matches Some(ia) && b.input matches Some(ib) && ib@ == spec_route_game(
            ia@,
            packet,
        ).0
    })
}

/// The Input phase as a chain: each packet lands in its addressee's buffer
/// against the store the packets before it left (a stale or bufferless
/// addressee drops the packet), and the immediate replies and raised events
/// come out in packet order, tagged with the addressee's runtime id.
pub open spec fn input_phase_rel(
    before: Seq<Slot>,
    after: Seq<Slot>,
    inputs: Seq<(EntityHandle, ClientPacket)>,
    out: Seq<(u32, Seq<ServerPacket>)>,
    events: Seq<(u32, GameInputEvent)>,
) -> bool
    decreases inputs.len(),
{
    if inputs.len() == 0 {
        &&& after == before
        &&& out.len() == 0
        &&& events.len() == 0
    } else {
        let e = inputs[0].0;
        let packet = inputs[0].1;
        if input_packet_applies(before, e) {
            let c = before[e.index as int].occupant->Some_0;
            let step = spec_route_game(c.input->Some_0@, packet);
            let uid = c.game_entity.unique_id;
            exists|mid: Seq<Slot>|
                {
                    &&& mid.len() == before.len()
                    &&& forall|j: int|
                        0 <= j < before.len() && j != e.index as int ==> mid[j] == before[j]
                    &&& input_slot_rel(before[e.index as int], mid[e.index as int], packet)
                    &&& if step.1.len() > 0 {
                        out.len() >= 1 && out[0] == (uid, step.1) && (match step.2 {
                            Some(ev) => events.len() >= 1 && events[0] == (uid, ev)
                                && input_phase_rel(
                                mid,
                                after,
                                inputs.drop_first(),
                                out.drop_first(),
                                events.drop_first(),
                            ),
                            None => input_phase_rel(
                                mid,
                                after,
                                inputs.drop_first(),
                                out.drop_first(),
                                events,
                            ),
                        })
                    } else {
                        match step.2 {
                            Some(ev) => events.len() >= 1 && events[0] == (uid, ev)
                                && input_phase_rel(
                                mid,
                                after,
                                inputs.drop_first(),
                                out,
                                events.drop_first(),
                            ),
                            None => input_phase_rel(mid, after, inputs.drop_first(), out, events),
                        }
                    }
                }
        } else {
            input_phase_rel(before, after, inputs.drop_first(), out, events)
        }
    }
}

/// Extending a completed Input chain by one more packet.
proof fn lemma_input_phase_rel_snoc(
    s0: Seq<Slot>,
    s1: Seq<Slot>,
    s2: Seq<Slot>,
    consumed: Seq<(EntityHandle, ClientPacket)>,
    x: (EntityHandle, ClientPacket),
    out1: Seq<(u32, Seq<ServerPacket>)>,
    out2: Seq<(u32, Seq<ServerPacket>)>,
    ev1: Seq<(u32, GameInputEvent)>,
    ev2: Seq<(u32, GameInputEvent)>,
)
    requires
        input_phase_rel(s0, s1, consumed, out1, ev1),
        input_phase_rel(s1, s2, seq![x], out2, ev2),
    ensures
        input_phase_rel(s0, s2, consumed.push(x), out1 + out2, ev1 + ev2),
    decreases consumed.len(),
{
    if consumed.len() == 0 {
        assert(s1 == s0);
        assert(consumed.push(x) =~= seq![x]);
        assert(out1 + out2 =~= out2);
        assert(ev1 + ev2 =~= ev2);
        return ;
    }
    let e = consumed[0].0;
    let packet = consumed[0].1;
    let extended = consumed.push(x);
    assert(extended[0] == consumed[0]);
    assert(extended.drop_first() =~= consumed.drop_first().push(x));
    if input_packet_applies(s0, e) {
        let c = s0[e.index as int].occupant->Some_0;
        let step = spec_route_game(c.input->Some_0@, packet);
        let mid = choose|mid: Seq<Slot>|
            {
                &&& mid.len() == s0.len()
                &&& forall|j: int|
                    0 <= j < s0.len() && j != e.index as int ==> mid[j] == s0[j]
                &&& input_slot_rel(s0[e.index as int], mid[e.index as int], packet)
                &&& if step.1.len() > 0 {
                    out1.len() >= 1 && out1[0] == (c.game_entity.unique_id, step.1) && (match step.2 {
                        Some(ev) => ev1.len() >= 1 && ev1[0] == (c.game_entity.unique_id, ev)
                            && input_phase_rel(
                            mid,
                            s1,
                            consumed.drop_first(),
                            out1.drop_first(),
                            ev1.drop_first(),
                        ),
                        None => input_phase_rel(
                            mid,
                            s1,
                            consumed.drop_first(),
                            out1.drop_first(),
                            ev1,
                        ),
                    })
                } else {
                    match step.2 {
                        Some(ev) => ev1.len() >= 1 && ev1[0] == (c.game_entity.unique_id, ev)
                            && input_phase_rel(
                            mid,
                            s1,
                            consumed.drop_first(),
                            out1,
                            ev1.drop_first(),
                        ),
                        None => input_phase_rel(mid, s1, consumed.drop_first(), out1, ev1),
                    }
                }
            };
        if step.1.len() > 0 {
            assert((out1 + out2).drop_first() =~= out1.drop_first() + out2);
            assert((out1 + out2)[0] == out1[0]);
            match step.2 {
                Some(ev) => {
                    assert((ev1 + ev2).drop_first() =~= ev1.drop_first() + ev2);
                    assert((ev1 + ev2)[0] == ev1[0]);
                    lemma_input_phase_rel_snoc(
                        mid,
                        s1,
                        s2,
                        consumed.drop_first(),
                        x,
                        out1.drop_first(),
                        out2,
                        ev1.drop_first(),
                        ev2,
                    );
                },
                None => {
                    lemma_input_phase_rel_snoc(
                        mid,
                        s1,
                        s2,
                        consumed.drop_first(),
                        x,
                        out1.drop_first(),
                        out2,
                        ev1,
                        ev2,
                    );
                },
            }
        } else {
            match step.2 {
                Some(ev) => {
                    assert((ev1 + ev2).drop_first() =~= ev1.drop_first() + ev2);
                    assert((ev1 + ev2)[0] == ev1[0]);
                    lemma_input_phase_rel_snoc(
                        mid,
                        s1,
                        s2,
                        consumed.drop_first(),
                        x,
                        out1,
                        out2,
                        ev1.drop_first(),
                        ev2,
                    );
                },
                None => {
                    lemma_input_phase_rel_snoc(
                        mid,
                        s1,
                        s2,
                        consumed.drop_first(),
                        x,
                        out1,
                        out2,
                        ev1,
                        ev2,
                    );
                },
            }
        }
    } else {
        lemma_input_phase_rel_snoc(s0, s1, s2, consumed.drop_first(), x, out1, out2, ev1, ev2);
    }
}

/// Whether some live entity other than the one in slot `except` carries the
/// runtime id. The actor's own slot is mid-update while its attack resolves,
/// so it cannot be its own target.
pub open spec fn spec_uid_live_except(slots: Seq<Slot>, uid: u32, except: int) -> bool {
    exists|k: int|
        ({
            &&& 0 <= k < slots.len()
            &&& k != except
            &&& (#[trigger] slots[k]).occupant matches Some(c)
            &&& c.game_entity.unique_id == uid
        })
}

/// The attack slot `i` fires this tick, if any: the actor's identity, the
/// targeted runtime id, and the skill.
pub open spec fn spec_firing_attack(slots: Seq<Slot>, delta: u32, i: int) -> Option<
    (GameEntity, u32, u32),
> {
    if 0 <= i < slots.len() {
        match slots[i].occupant {
            Some(c) => match c.action {
                Some(act) => if spec_advance(
                    act.skill.timings,
                    act.state,
                    act.remaining_ms,
                    delta,
                ).1 {
                    match act.target {
                        ActionTarget::Entity(uid) => Some((c.game_entity, uid, act.skill.ref_id)),
                        _ => None,
                    }
                } else {
                    None
                },
                None => None,
            },
            None => None,
        }
    } else {
        None
    }
}

/// The action in slot `i` fires this tick but cannot resolve: its target is
/// no entity, or no other live entity carries the targeted id.
pub open spec fn spec_action_aborts(slots: Seq<Slot>, delta: u32, i: int) -> bool {
    &&& 0 <= i < slots.len()
    &&& slots[i].occupant matches Some(c)
    &&& slots[i].occupant matches Some(c) && c.action matches Some(act) && spec_advance(
        act.skill.timings,
        act.state,
        act.remaining_ms,
        delta,
    ).1 && match act.target {
        ActionTarget::Entity(uid) => !spec_uid_live_except(slots, uid, i),
        _ => true,
    }
}

/// The action system's per-slot outcome: only the action and the damage list
/// may change; the action advances per the stage machine, an unresolvable
/// firing attack aborts it, and the damage list only grows.
pub open spec fn action_slot_rel(
    before: Slot,
    after: Slot,
    slots: Seq<Slot>,
    delta: u32,
    i: int,
) -> bool {
    &&& after.generation == before.generation
    &&& match (before.occupant, after.occupant) {
        (Some(a), Some(b)) => {
            &&& b == (Components { action: b.action, synchronize: b.synchronize, ..a })
            &&& b.synchronize == (Synchronize { damage: b.synchronize.damage, ..a.synchronize })
            &&& b.synchronize.damage@.len() >= a.synchronize.damage@.len()
            &&& b.synchronize.damage@.take(a.synchronize.damage@.len() as int)
                == a.synchronize.damage@
            &&& match a.action {
                Some(act) => {
                    let step = spec_advance(act.skill.timings, act.state, act.remaining_ms, delta);
                    if step.1 && spec_action_aborts(slots, delta, i) {
                        b.action is None
                    } else {
                        match step.0 {
                            Some(next) => b.action matches Some(after_act) && after_act
                                == (Action { state: next.0, remaining_ms: next.1, ..act }),
                            None => b.action is None,
                        }
                    }
                },
                None => b.action == a.action,
            }
        },
        (None, None) => true,
        _ => false,
    }
}

/// A delivered damage event is genuine: its target identity is the slot it
/// landed in, its references are consistent, and some live actor fired
/// exactly this attack this tick.
pub open spec fn spec_event_from_attacker(
    slots: Seq<Slot>,
    delta: u32,
    target_slot: int,
    ev: DamageReceiveEvent,
) -> bool {
    &&& 0 <= target_slot < slots.len()
    &&& slots[target_slot].occupant matches Some(tc) && tc.game_entity == ev.target.1
    &&& ev.target.0 == ev.target.1.unique_id
    &&& ev.source.0 == ev.source.1.unique_id
    &&& exists|s: int|
        spec_firing_attack(slots, delta, s) == Some(
            (ev.source.1, ev.target.1.unique_id, ev.attack.skill_ref),
        )
}

/// The one abort notice an actor is owed when its attack cannot resolve.
pub open spec fn spec_abort_notice() -> Seq<ServerPacket> {
    seq![
        ServerPacket::PerformActionResponse(
            PerformActionResponse::Stop(PerformActionError::InvalidTarget),
        ),
    ]
}

/// A slot after Cleanup: the generation and occupancy are kept, the occupant
/// keeps every component except its drained accumulator and reset input
/// buffer.
pub open spec fn cleanup_slot_rel(before: Slot, after: Slot) -> bool {
    &&& after.generation == before.generation
    &&& match (before.occupant, after.occupant) {
        (Some(a), Some(b)) => {
            &&& b == (Components { synchronize: b.synchronize, input: b.input, ..a })
            &&& (b.input is Some <==> a.input is Some)
        },
        (None, None) => true,
        _ => false,
    }
}

/// Changing one slot to a well-formed one keeps the store well-formed.
proof fn lemma_store_wf_preserved(before: Seq<Slot>, after: Seq<Slot>, i: int)
    requires
        store_wf(before),
        before.len() <= after.len() <= before.len() + 1,
        0 <= i < after.len(),
        forall|j: int|
            0 <= j < after.len() && j != i ==> (j < before.len() && after[j] == before[j]),
        slot_wf(after[i]),
    ensures
        store_wf(after),
{
    assert forall|j: int| 0 <= j < after.len() implies slot_wf(#[trigger] after[j]) by {
        if j != i {
            assert(slot_wf(before[j]));
        }
    }
}

/// The authoritative simulation: the entity store, the runtime-id allocator
/// and the attack-instance counter.
pub struct World {
    pub store: EntityStore,
    pub allocator: IdAllocator,
    pub attack_counter: AttackInstanceCounter,
}

impl World {
    pub open spec fn wf(&self) -> bool {
        store_wf(self.store@)
    }

    pub fn new() -> (r: World)
        ensures
            r.wf(),
            r.store@.len() == 0,
            all_accumulators_clear(r.store@),
    {
        World {
            store: EntityStore::new(),
            allocator: IdAllocator::new(),
            attack_counter: AttackInstanceCounter::new(),
        }
    }

    /// Spawn an entity atomically with all its components, under a fresh
    /// runtime id.
    pub fn spawn(&mut self, ref_id: u32, mut components: Components) -> (e: EntityHandle)
        requires
            old(self).wf(),
            components_wf(components),
            old(self).allocator.spec_next() < u32::MAX,
        ensures
            final(self).wf(),
            final(self).store.spec_valid(e),
            final(self).store.spec_at(e) == (Components {
                game_entity: GameEntity { ref_id, unique_id: old(self).allocator.spec_next() },
                ..components
            }),
            final(self).allocator.spec_next() == old(self).allocator.spec_next() + 1,
            final(self).store@.len() <= old(self).store@.len() + 1,
            final(self).attack_counter == old(self).attack_counter,
            forall|i: int|
                0 <= i < old(self).store@.len() && i != e.index as int ==> final(self).store@[i]
                    == old(self).store@[i],
    {
        let unique_id = self.allocator.allocate();
        components.game_entity = GameEntity { ref_id, unique_id };
        let ghost before = self.store@;
        let e = self.store.spawn(components);
        proof {
            lemma_store_wf_preserved(before, self.store@, e.index as int);
        }
        e
    }

    /// The first live entity carrying the given runtime id; nothing exactly
    /// when no live entity carries it.
    fn find_by_unique_id(&self, unique_id: u32) -> (r: Option<(usize, GameEntity)>)
        ensures
            match r {
                Some(found) => {
                    &&& found.0 < self.store@.len()
                    &&& self.store@[found.0 as int].occupant matches Some(c) && c.game_entity
                        == found.1 && found.1.unique_id == unique_id
                    &&& forall|k: int|
                        0 <= k < found.0 ==> match (#[trigger] self.store@[k]).occupant {
                            Some(c) => c.game_entity.unique_id != unique_id,
                            None => true,
                        }
                },
                None => forall|k: int|
                    0 <= k < self.store@.len() ==> match (#[trigger] self.store@[k]).occupant {
                        Some(c) => c.game_entity.unique_id != unique_id,
                        None => true,
                    },
            },
    {
        let mut i: usize = 0;
        let n = self.store.len();
        while i < n
            invariant
                n == self.store@.len(),
                forall|k: int|
                    0 <= k < i ==> match (#[trigger] self.store@[k]).occupant {
                        Some(c) => c.game_entity.unique_id != unique_id,
                        None => true,
                    },
            decreases n - i,
        {
            match self.store.handle_at(i) {
                Some(h) => {
                    match self.store.get(h) {
                        Some(c) => {
                            if c.game_entity.unique_id == unique_id {
                                return Some((i, c.game_entity));
                            }
                        },
                        None => {},
                    }
                },
                None => {},
            }
            i = i + 1;
        }
        None
    }

    /// Transition step: start an action for an entity, replacing whatever
    /// action it had. Mode decisions like this run in the Transition phase,
    /// before any Execute system advances the new action.
    pub fn start_action(&mut self, e: EntityHandle, description: ActionDescription) -> (started:
        bool)
        requires
            old(self).wf(),
            description.0.timings.wf(),
        ensures
            final(self).wf(),
            final(self).store@.len() == old(self).store@.len(),
            started == old(self).store.spec_valid(e),
            !started ==> final(self).store@ == old(self).store@,
            started ==> final(self).store.spec_valid(e) && final(self).store.spec_at(e)
                == (Components {
                action: Some(Action::from_spec(description)),
                ..old(self).store.spec_at(e)
            }),
            forall|i: int|
                0 <= i < old(self).store@.len() && i != e.index as int ==> final(self).store@[i]
                    == old(self).store@[i],
            final(self).allocator == old(self).allocator,
            final(self).attack_counter == old(self).attack_counter,
    {
        let ghost before = self.store@;
        match self.store.take(e) {
            Some(mut c) => {
                c.action = Some(Action::from(description));
                proof {
                    assert(slot_wf(before[e.index as int]));
                }
                self.store.restore(e.index, c);
                proof {
                    lemma_store_wf_preserved(before, self.store@, e.index as int);
                }
                true
            },
            None => false,
        }
    }

    /// Input phase: drain the tick's routed packets into each addressee's
    /// input buffer. A packet for a stale handle is dropped — the entity is
    /// gone and its messages with it. Immediate replies and raised events
    /// are handed back.
    pub fn input_phase(&mut self, inputs: Vec<(EntityHandle, ClientPacket)>) -> (r: (
        Vec<(u32, Vec<ServerPacket>)>,
        Vec<(u32, GameInputEvent)>,
    ))
        requires
            old(self).wf(),
        ensures
            final(self).wf(),
            final(self).store@.len() == old(self).store@.len(),
            final(self).allocator == old(self).allocator,
            final(self).attack_counter == old(self).attack_counter,
            input_phase_rel(
                old(self).store@,
                final(self).store@,
                inputs@,
                spec_out_view(r.0@),
                r.1@,
            ),
    {
        let ghost all = inputs@;
        let ghost s0 = self.store@;
        let mut out: Vec<(u32, Vec<ServerPacket>)> = Vec::new();
        let mut events: Vec<(u32, GameInputEvent)> = Vec::new();
        let mut inputs = inputs;
        proof {
            assert(all.take(0) =~= Seq::<(EntityHandle, ClientPacket)>::empty());
            assert(spec_out_view(out@) =~= Seq::<(u32, Seq<ServerPacket>)>::empty());
        }
        while inputs.len() > 0
            invariant
                self.wf(),
                self.store@.len() == old(self).store@.len(),
                self.allocator == old(self).allocator,
                self.attack_counter == old(self).attack_counter,
                s0 == old(self).store@,
                inputs@.len() <= all.len(),
                all.skip(all.len() - inputs@.len()) =~= inputs@,
                input_phase_rel(
                    s0,
                    self.store@,
                    all.take(all.len() - inputs@.len()),
                    spec_out_view(out@),
                    events@,
                ),
            decreases inputs@.len(),
        {
            let ghost k = all.len() - inputs@.len();
            let ghost s_before = self.store@;
            let ghost out_before = spec_out_view(out@);
            let ghost ev_before = events@;
            proof {
                assert(all.skip(k)[0] == all[k]);
                assert(all.skip(k).drop_first() =~= all.skip(k + 1));
            }
            let (e, packet) = inputs.remove(0);
            let ghost x = all[k];
            proof {
                assert((e, packet) == x);
            }
            let ghost mut step_out: Seq<(u32, Seq<ServerPacket>)> = Seq::empty();
            let ghost mut step_ev: Seq<(u32, GameInputEvent)> = Seq::empty();
            let ghost before = self.store@;
            match self.store.take(e) {
                Some(mut c) => {
                    let ghost c0 = c;
                    match c.input.take() {
                        Some(mut inp) => {
                            let ghost inp0 = inp;
                            let (replies, event) = route_game_packet(&mut inp, packet);
                            c.input = Some(inp);
                            if replies.len() > 0 {
                                out.push((c.game_entity.unique_id, replies));
                            }
                            if let Some(ev) = event {
                                events.push((c.game_entity.unique_id, ev));
                            }
                            proof {
                                assert(slot_wf(before[e.index as int]));
                            }
                            self.store.restore(e.index, c);
                            proof {
                                lemma_store_wf_preserved(before, self.store@, e.index as int);
                                // one applied packet: the restored slot is the witness
                                let step = spec_route_game(inp0@, packet);
                                step_out = if step.1.len() > 0 {
                                    seq![(c0.game_entity.unique_id, step.1)]
                                } else {
                                    Seq::empty()
                                };
                                step_ev = match step.2 {
                                    Some(ev) => seq![(c0.game_entity.unique_id, ev)],
                                    None => Seq::empty(),
                                };
                                assert(input_packet_applies(before, e));
                                assert(input_slot_rel(
                                    before[e.index as int],
                                    self.store@[e.index as int],
                                    packet,
                                ));
                                assert(input_phase_rel(
                                    self.store@,
                                    self.store@,
                                    Seq::<(EntityHandle, ClientPacket)>::empty(),
                                    Seq::<(u32, Seq<ServerPacket>)>::empty(),
                                    Seq::<(u32, GameInputEvent)>::empty(),
                                ));
                                assert(seq![x].drop_first() =~= Seq::<(
                                    EntityHandle,
                                    ClientPacket,
                                )>::empty());
                                if step.1.len() > 0 {
                                    assert(step_out.drop_first() =~= Seq::<(
                                        u32,
                                        Seq<ServerPacket>,
                                    )>::empty());
                                }
                                match step.2 {
                                    Some(ev) => {
                                        assert(step_ev.drop_first() =~= Seq::<(
                                            u32,
                                            GameInputEvent,
                                        )>::empty());
                                    },
                                    None => {},
                                }
                                assert(input_phase_rel(before, self.store@, seq![x], step_out, step_ev));
                            }
                        },
                        None => {
                            proof {
                                assert(slot_wf(before[e.index as int]));
                            }
                            self.store.restore(e.index, c);
                            proof {
                                lemma_store_wf_preserved(before, self.store@, e.index as int);
                                step_out = Seq::<(u32, Seq<ServerPacket>)>::empty();
                                step_ev = Seq::<(u32, GameInputEvent)>::empty();
                                assert(self.store@ =~= before);
                                assert(!input_packet_applies(before, e));
                                assert(seq![x].drop_first() =~= Seq::<(
                                    EntityHandle,
                                    ClientPacket,
                                )>::empty());
                                assert(input_phase_rel(
                                    before,
                                    self.store@,
                                    Seq::<(EntityHandle, ClientPacket)>::empty(),
                                    step_out,
                                    step_ev,
                                ));
                                assert(input_phase_rel(before, self.store@, seq![x], step_out, step_ev));
                            }
                        },
                    }
                },
                None => {
                    proof {
                        step_out = Seq::<(u32, Seq<ServerPacket>)>::empty();
                        step_ev = Seq::<(u32, GameInputEvent)>::empty();
                        assert(!input_packet_applies(before, e));
                        assert(seq![x].drop_first() =~= Seq::<(EntityHandle, ClientPacket)>::empty());
                        assert(input_phase_rel(
                            before,
                            self.store@,
                            Seq::<(EntityHandle, ClientPacket)>::empty(),
                            step_out,
                            step_ev,
                        ));
                        assert(input_phase_rel(before, self.store@, seq![x], step_out, step_ev));
                    }
                },
            }
            proof {
                assert(spec_out_view(out@) =~= out_before + step_out);
                assert(events@ =~= ev_before + step_ev);
                lemma_input_phase_rel_snoc(
                    s0,
                    s_before,
                    self.store@,
                    all.take(k),
                    x,
                    out_before,
                    step_out,
                    ev_before,
                    step_ev,
                );
                assert(all.take(k).push(x) =~= all.take(k + 1));
                assert(all.len() - inputs@.len() == k + 1);
            }
        }
        proof {
            assert(all.take(all.len() - inputs@.len()) =~= all);
        }
        (out, events)
    }

    /// Execute step: advance every in-progress action by the elapsed time.
    /// An action that enters its Execution stage resolves its attack: the
    /// target must still resolve to a live entity, else the action aborts
    /// and its actor is notified; a resolved attack draws its damage and is
    /// delivered into the target's synchronization accumulator under a fresh
    /// attack-instance id.
    #[verifier::rlimit(100)]
    #[verifier::spinoff_prover]
    pub fn execute_actions(&mut self, delta_ms: u32) -> (out: Vec<(u32, Vec<ServerPacket>)>)
        requires
            old(self).wf(),
            old(self).attack_counter.spec_next() + old(self).store@.len() <= u64::MAX,
        ensures
            final(self).wf(),
            final(self).store@.len() == old(self).store@.len(),
            final(self).allocator == old(self).allocator,
            old(self).attack_counter.spec_next() <= final(self).attack_counter.spec_next() <= old(
                self,
            ).attack_counter.spec_next() + old(self).store@.len(),
            // per slot: the action advances, aborts, or ends per the machine,
            // and nothing but the action and the damage list changes
            forall|i: int|
                0 <= i < old(self).store@.len() ==> action_slot_rel(
                    old(self).store@[i],
                    #[trigger] final(self).store@[i],
                    old(self).store@,
                    delta_ms,
                    i,
                ),
            // every outbound entry is one abort notice
            forall|q: int|
                0 <= q < out@.len() ==> (#[trigger] out@[q]).1@ =~= spec_abort_notice(),
    {
        let ghost before0 = self.store@;
        let mut out: Vec<(u32, Vec<ServerPacket>)> = Vec::new();
        let mut pending: Vec<(usize, DamageReceiveEvent)> = Vec::new();
        let n = self.store.len();
        let mut i: usize = 0;
        while i < n
            invariant
                self.wf(),
                i <= n,
                n == self.store@.len(),
                before0 == old(self).store@,
                before0.len() == n,
                self.store@.len() == old(self).store@.len(),
                self.attack_counter.spec_next() <= old(self).attack_counter.spec_next() + i,
                self.attack_counter.spec_next() >= old(self).attack_counter.spec_next(),
                old(self).attack_counter.spec_next() + old(self).store@.len() <= u64::MAX,
                self.allocator == old(self).allocator,
                // processed slots satisfy the per-slot relation with the
                // damage untouched; unprocessed slots are untouched
                forall|p: int|
                    0 <= p < i ==> action_slot_rel(
                        before0[p],
                        #[trigger] self.store@[p],
                        before0,
                        delta_ms,
                        p,
                    ),
                forall|p: int|
                    0 <= p < n ==> ((#[trigger] self.store@[p]).occupant is Some
                        <==> before0[p].occupant is Some),
                forall|p: int|
                    ({
                        &&& 0 <= p < n
                        &&& (#[trigger] self.store@[p]).occupant matches Some(b)
                        &&& before0[p].occupant matches Some(a)
                    }) ==> self.store@[p].occupant->Some_0.synchronize.damage
                        == before0[p].occupant->Some_0.synchronize.damage,
                forall|p: int| i <= p < n ==> #[trigger] self.store@[p] == before0[p],
                // pending events are genuine and keyed to live target slots
                forall|q: int|
                    0 <= q < pending@.len() ==> {
                        &&& (#[trigger] pending@[q]).0 < n
                        &&& spec_event_from_attacker(
                            before0,
                            delta_ms,
                            pending@[q].0 as int,
                            pending@[q].1,
                        )
                    },
                forall|q: int|
                    0 <= q < out@.len() ==> (#[trigger] out@[q]).1@ =~= spec_abort_notice(),
            decreases n - i,
        {
            let ghost before = self.store@;
            let mut c = match self.store.take_at(i) {
                Some(c) => c,
                None => {
                    proof {
                        assert(action_slot_rel(
                            before0[i as int],
                            self.store@[i as int],
                            before0,
                            delta_ms,
                            i as int,
                        ));
                    }
                    i = i + 1;
                    continue ;
                },
            };
            proof {
                assert(slot_wf(before[i as int]));
                lemma_store_wf_preserved(before, self.store@, i as int);
            }
            let ghost c0 = c;
            let mut act = match c.action.take() {
                Some(a) => a,
                None => {
                    self.store.restore(i, c);
                    proof {
                        lemma_store_wf_preserved(before, self.store@, i as int);
                        let a = before0[i as int].occupant->Some_0;
                        assert(self.store@[i as int].occupant->Some_0.synchronize.damage@.take(
                            a.synchronize.damage@.len() as int,
                        ) =~= a.synchronize.damage@);
                        assert(action_slot_rel(
                            before0[i as int],
                            self.store@[i as int],
                            before0,
                            delta_ms,
                            i as int,
                        ));
                    }
                    i = i + 1;
                    continue ;
                },
            };
            let ghost act0 = act;
            let outcome = advance_action(&mut act, delta_ms);
            let mut aborted = false;
            if outcome.fired {
                match act.target {
                    ActionTarget::Entity(target_uid) => {
                        match self.find_by_unique_id(target_uid) {
                            Some((target_index, target_entity)) => {
                                proof {
                                    assert(self.store@[i as int].occupant is None);
                                    assert(target_index != i);
                                    if target_index < i {
                                        assert(action_slot_rel(
                                            before0[target_index as int],
                                            self.store@[target_index as int],
                                            before0,
                                            delta_ms,
                                            target_index as int,
                                        ));
                                    } else {
                                        assert(self.store@[target_index as int]
                                            == before0[target_index as int]);
                                    }
                                    assert(before0[target_index as int].occupant matches Some(tc)
                                        && tc.game_entity == target_entity);
                                    assert(spec_uid_live_except(before0, target_uid, i as int));
                                    assert(spec_firing_attack(before0, delta_ms, i as int)
                                        == Some((c0.game_entity, target_uid, act0.skill.ref_id)));
                                }
                                let is_player = c.player.is_some();
                                let strength = match &c.player {
                                    Some(p) => p.strength,
                                    None => 0,
                                };
                                let weapon = match &c.inventory {
                                    Some(inv) => match inv.get_item_at(WEAPON_SLOT) {
                                        Some(item) => Some(*item),
                                        None => None,
                                    },
                                    None => None,
                                };
                                let amount: u32 = if !is_player {
                                    BASELINE_DAMAGE
                                } else {
                                    match &weapon {
                                        Some(w) => {
                                            let lower = damage_bound_u64(
                                                strength,
                                                w.reference.physical_reinforce_lower,
                                                w.reference.physical_attack_power_lower,
                                            );
                                            let upper = damage_bound_u64(
                                                strength,
                                                w.reference.physical_reinforce_upper,
                                                w.reference.physical_attack_power_upper,
                                            );
                                            if lower <= upper && upper <= 0xffffffff {
                                                resolve_damage_amount(
                                                    strength,
                                                    Some(&w.reference),
                                                    true,
                                                )
                                            } else {
                                                // degenerate static data: fall back
                                                // to the unarmed value
                                                UNARMED_DAMAGE
                                            }
                                        },
                                        None => UNARMED_DAMAGE,
                                    }
                                };
                                let instance = self.attack_counter.next();
                                pending.push(
                                    (
                                        target_index,
                                        DamageReceiveEvent {
                                            source: EntityReference(
                                                c.game_entity.unique_id,
                                                c.game_entity,
                                            ),
                                            target: EntityReference(target_uid, target_entity),
                                            attack: AttackDefinition {
                                                skill_ref: act.skill.ref_id,
                                                instance,
                                            },
                                            amount,
                                        },
                                    ),
                                );
                            },
                            None => {
                                // the target no longer exists: abort the
                                // action and tell the actor
                                proof {
                                    assert forall|k: int|
                                        0 <= k < n && k != i as int && (
                                        #[trigger] before0[k]).occupant is Some implies before0[k].occupant->Some_0.game_entity.unique_id
                                        != target_uid by {
                                        if k < i as int {
                                            assert(action_slot_rel(
                                                before0[k],
                                                self.store@[k],
                                                before0,
                                                delta_ms,
                                                k,
                                            ));
                                        } else {
                                            assert(self.store@[k] == before0[k]);
                                        }
                                        assert(self.store@[k].occupant is Some);
                                    }
                                    assert(!spec_uid_live_except(before0, target_uid, i as int));
                                    assert(spec_firing_attack(before0, delta_ms, i as int)
                                        == Some((c0.game_entity, target_uid, act0.skill.ref_id)));
                                    assert(spec_action_aborts(before0, delta_ms, i as int));
                                }
                                aborted = true;
                                let mut msgs: Vec<ServerPacket> = Vec::new();
                                msgs.push(
                                    ServerPacket::PerformActionResponse(
                                        PerformActionResponse::Stop(
                                            PerformActionError::InvalidTarget,
                                        ),
                                    ),
                                );
                                out.push((c.game_entity.unique_id, msgs));
                            },
                        }
                    },
                    _ => {
                        // an attack needs an entity target; abort otherwise
                        proof {
                            assert(spec_action_aborts(before0, delta_ms, i as int));
                        }
                        aborted = true;
                        let mut msgs: Vec<ServerPacket> = Vec::new();
                        msgs.push(
                            ServerPacket::PerformActionResponse(
                                PerformActionResponse::Stop(PerformActionError::InvalidTarget),
                            ),
                        );
                        out.push((c.game_entity.unique_id, msgs));
                    },
                }
            }
            if !outcome.removed && !aborted {
                c.action = Some(act);
            }
            self.store.restore(i, c);
            proof {
                lemma_store_wf_preserved(before, self.store@, i as int);
                let a = before0[i as int].occupant->Some_0;
                assert(a == c0);
                assert(self.store@[i as int].occupant->Some_0.synchronize.damage@.take(
                    a.synchronize.damage@.len() as int,
                ) =~= a.synchronize.damage@);
                if aborted {
                    assert(spec_action_aborts(before0, delta_ms, i as int));
                } else if outcome.fired {
                    assert(!spec_action_aborts(before0, delta_ms, i as int));
                }
                assert(action_slot_rel(
                    before0[i as int],
                    self.store@[i as int],
                    before0,
                    delta_ms,
                    i as int,
                ));
            }
            i = i + 1;
        }
        // deliver the resolved attacks into the targets' accumulators
        let mut k: usize = 0;
        let m = pending.len();
        while k < m
            invariant
                self.wf(),
                m == pending@.len(),
                n == before0.len(),
                before0 == old(self).store@,
                self.store@.len() == n,
                self.allocator == old(self).allocator,
                old(self).attack_counter.spec_next() <= self.attack_counter.spec_next() <= old(
                    self,
                ).attack_counter.spec_next() + n,
                forall|p: int|
                    0 <= p < n ==> action_slot_rel(
                        before0[p],
                        #[trigger] self.store@[p],
                        before0,
                        delta_ms,
                        p,
                    ),
                // pending events are genuine and keyed to live target slots
                forall|q: int|
                    0 <= q < pending@.len() ==> {
                        &&& (#[trigger] pending@[q]).0 < n
                        &&& spec_event_from_attacker(
                            before0,
                            delta_ms,
                            pending@[q].0 as int,
                            pending@[q].1,
                        )
                    },
                forall|q: int|
                    0 <= q < out@.len() ==> (#[trigger] out@[q]).1@ =~= spec_abort_notice(),
            decreases m - k,
        {
            let (target_index, event) = pending[k];
            let ghost before = self.store@;
            proof {
                assert(spec_event_from_attacker(
                    before0,
                    delta_ms,
                    target_index as int,
                    event,
                ));
                assert(before0[target_index as int].occupant is Some);
                assert(action_slot_rel(
                    before0[target_index as int],
                    self.store@[target_index as int],
                    before0,
                    delta_ms,
                    target_index as int,
                ));
                assert(self.store@[target_index as int].occupant is Some);
            }
            match self.store.take_at(target_index) {
                Some(mut tc) => {
                    proof {
                        assert(slot_wf(before[target_index as int]));
                    }
                    let ghost tc0 = tc;
                    tc.synchronize.add_damage(event);
                    self.store.restore(target_index, tc);
                    proof {
                        lemma_store_wf_preserved(before, self.store@, target_index as int);
                        let a = before0[target_index as int].occupant->Some_0;
                        assert(tc0.synchronize.damage@.take(a.synchronize.damage@.len() as int)
                            == a.synchronize.damage@);
                        assert(tc.synchronize.damage@.take(a.synchronize.damage@.len() as int)
                            =~= a.synchronize.damage@);
                        assert(action_slot_rel(
                            before0[target_index as int],
                            self.store@[target_index as int],
                            before0,
                            delta_ms,
                            target_index as int,
                        ));
                    }
                },
                None => {
                    proof {
                        assert(false);
                    }
                },
            }
            k = k + 1;
        }
        out
    }

    /// Execute step: advance every in-progress pickup. A grant that would
    /// push the pouch over the gold cap waits for a later tick.
    pub fn execute_pickups(&mut self, delta_ms: u32) -> (out: Vec<(u32, Vec<ServerPacket>)>)
        requires
            old(self).wf(),
        ensures
            final(self).wf(),
            final(self).store@.len() == old(self).store@.len(),
            final(self).allocator == old(self).allocator,
    {
        let mut out: Vec<(u32, Vec<ServerPacket>)> = Vec::new();
        let n = self.store.len();
        let mut i: usize = 0;
        while i < n
            invariant
                self.wf(),
                n == self.store@.len(),
                self.store@.len() == old(self).store@.len(),
                self.allocator == old(self).allocator,
            decreases n - i,
        {
            let ghost before = self.store@;
            let mut c = match self.store.take_at(i) {
                Some(c) => c,
                None => {
                    i = i + 1;
                    continue ;
                },
            };
            proof {
                assert(slot_wf(before[i as int]));
                lemma_store_wf_preserved(before, self.store@, i as int);
            }
            let mut pk = match c.pickup.take() {
                Some(p) => p,
                None => {
                    self.store.restore(i, c);
                    proof {
                        lemma_store_wf_preserved(before, self.store@, i as int);
                    }
                    i = i + 1;
                    continue ;
                },
            };
            let mut inv = match c.inventory.take() {
                Some(x) => x,
                None => {
                    c.pickup = Some(pk);
                    self.store.restore(i, c);
                    proof {
                        lemma_store_wf_preserved(before, self.store@, i as int);
                    }
                    i = i + 1;
                    continue ;
                },
            };
            let mut gold = match c.gold.take() {
                Some(x) => x,
                None => {
                    c.pickup = Some(pk);
                    c.inventory = Some(inv);
                    self.store.restore(i, c);
                    proof {
                        lemma_store_wf_preserved(before, self.store@, i as int);
                    }
                    i = i + 1;
                    continue ;
                },
            };
            let target = pk.target;
            let target_drop: Option<DroppedItem> = match self.store.get(target) {
                Some(tc) => {
                    proof {
                        assert(slot_wf(self.store@[target.index as int]));
                    }
                    match &tc.dropped {
                        Some(d) => Some(*d),
                        None => None,
                    }
                },
                None => None,
            };
            // a gold grant that would cross the cap waits for a later tick
            let mut deferred = false;
            match &target_drop {
                Some(d) => {
                    match d.item.type_data {
                        ItemTypeData::Gold { amount } => {
                            if gold.amount() > MAX_GOLD - amount as u64 {
                                deferred = true;
                            }
                        },
                        _ => {},
                    }
                },
                None => {},
            }
            if deferred {
                c.pickup = Some(pk);
                c.inventory = Some(inv);
                c.gold = Some(gold);
                self.store.restore(i, c);
                proof {
                    lemma_store_wf_preserved(before, self.store@, i as int);
                }
                i = i + 1;
                continue ;
            }
            let outcome = pickup_tick(
                &mut pk,
                delta_ms,
                target_drop.as_ref(),
                &mut inv,
                &mut gold,
            );
            c.inventory = Some(inv);
            c.gold = Some(gold);
            if !outcome.remove_pickup {
                c.pickup = Some(pk);
            }
            if outcome.messages.len() > 0 {
                out.push((c.game_entity.unique_id, outcome.messages));
            }
            self.store.restore(i, c);
            proof {
                lemma_store_wf_preserved(before, self.store@, i as int);
            }
            if outcome.claim_target {
                let ghost before2 = self.store@;
                self.store.despawn(target);
                proof {
                    if target.index < before2.len() {
                        lemma_store_wf_preserved(before2, self.store@, target.index as int);
                    }
                }
            }
            i = i + 1;
        }
        out
    }

    /// Execute step: apply every buffered inventory request, then spawn the
    /// ground objects the accepted gold drops produced.
    pub fn execute_inventory(&mut self) -> (out: Vec<(u32, Vec<ServerPacket>)>)
        requires
            old(self).wf(),
            old(self).allocator.spec_next() + old(self).store@.len() <= u32::MAX,
        ensures
            final(self).wf(),
    {
        let mut out: Vec<(u32, Vec<ServerPacket>)> = Vec::new();
        let mut pending_drops: Vec<(SpawnDrop, Position)> = Vec::new();
        let n = self.store.len();
        let mut i: usize = 0;
        while i < n
            invariant
                self.wf(),
                i <= n,
                n == self.store@.len(),
                self.store@.len() == old(self).store@.len(),
                self.allocator == old(self).allocator,
                pending_drops@.len() <= i,
                forall|k: int| 0 <= k < pending_drops@.len() ==> {
                    &&& crate::inventory::item_wf((#[trigger] pending_drops@[k]).0.item)
                    &&& pending_drops@[k].1.wf()
                    &&& pending_drops@[k].0.location == pending_drops@[k].1.spec_location()
                },
            decreases n - i,
        {
            let ghost before = self.store@;
            let mut c = match self.store.take_at(i) {
                Some(c) => c,
                None => {
                    i = i + 1;
                    continue ;
                },
            };
            proof {
                assert(slot_wf(before[i as int]));
                lemma_store_wf_preserved(before, self.store@, i as int);
            }
            let request = match &c.input {
                Some(inp) => inp.inventory,
                None => None,
            };
            let request = match request {
                Some(r) => r,
                None => {
                    self.store.restore(i, c);
                    proof {
                        lemma_store_wf_preserved(before, self.store@, i as int);
                    }
                    i = i + 1;
                    continue ;
                },
            };
            let player = match &c.player {
                Some(p) => *p,
                None => {
                    self.store.restore(i, c);
                    proof {
                        lemma_store_wf_preserved(before, self.store@, i as int);
                    }
                    i = i + 1;
                    continue ;
                },
            };
            let mut inv = match c.inventory.take() {
                Some(x) => x,
                None => {
                    self.store.restore(i, c);
                    proof {
                        lemma_store_wf_preserved(before, self.store@, i as int);
                    }
                    i = i + 1;
                    continue ;
                },
            };
            let mut gold = match c.gold.take() {
                Some(x) => x,
                None => {
                    c.inventory = Some(inv);
                    self.store.restore(i, c);
                    proof {
                        lemma_store_wf_preserved(before, self.store@, i as int);
                    }
                    i = i + 1;
                    continue ;
                },
            };
            let outcome = handle_inventory_input(
                &request,
                &mut inv,
                &mut gold,
                &c.position,
                player.level,
                player.race,
                c.game_entity.unique_id,
            );
            if let Some(drop) = outcome.drop {
                pending_drops.push((drop, c.position));
            }
            if outcome.messages.len() > 0 {
                out.push((c.game_entity.unique_id, outcome.messages));
            }
            c.inventory = Some(inv);
            c.gold = Some(gold);
            self.store.restore(i, c);
            proof {
                lemma_store_wf_preserved(before, self.store@, i as int);
            }
            i = i + 1;
        }
        // spawn the dropped gold piles
        let mut k: usize = 0;
        let m = pending_drops.len();
        while k < m
            invariant
                self.wf(),
                m == pending_drops@.len(),
                m <= old(self).store@.len(),
                self.allocator.spec_next() <= old(self).allocator.spec_next() + k,
                old(self).allocator.spec_next() + old(self).store@.len() <= u32::MAX,
                forall|q: int| 0 <= q < pending_drops@.len() ==> {
                    &&& crate::inventory::item_wf((#[trigger] pending_drops@[q]).0.item)
                    &&& pending_drops@[q].1.wf()
                },
            decreases m - k,
        {
            let (drop, drop_position) = pending_drops[k];
            proof {
                assert(crate::inventory::item_wf(pending_drops@[k as int].0.item));
                assert(pending_drops@[k as int].1.wf());
            }
            let components = Components {
                game_entity: GameEntity { ref_id: 0, unique_id: 0 },  // set by spawn
                position: drop_position,
                synchronize: Synchronize::new(),
                visibility: None,
                inventory: None,
                gold: None,
                action: None,
                pickup: None,
                dropped: Some(DroppedItem { item: drop.item, owner: drop.owner }),
                player: None,
                input: None,
            };
            self.spawn(drop.item.reference.ref_id, components);
            k = k + 1;
        }
        out
    }

    /// Broadcast phase: recompute each player's visibility set, then send it
    /// everything it is owed this tick — spawn payloads for entities that
    /// entered its view, the movement changes of the entities it sees, and
    /// its own accumulated batch (movement, the damage notifications, then
    /// the batched despawns of what left its view). One stated corner: the
    /// grouped despawn envelope counts in 16 bits, so a player with more
    /// than 65535 pending departures is sent no own batch that tick and the
    /// trailing Cleanup drops those entries.
    pub fn broadcast_phase(&mut self) -> (out: Vec<(u32, Vec<ServerPacket>)>)
        requires
            old(self).wf(),
        ensures
            final(self).wf(),
            final(self).store@.len() == old(self).store@.len(),
    {
        let mut out: Vec<(u32, Vec<ServerPacket>)> = Vec::new();
        let n = self.store.len();
        let mut i: usize = 0;
        while i < n
            invariant
                self.wf(),
                n == self.store@.len(),
                self.store@.len() == old(self).store@.len(),
            decreases n - i,
        {
            let ghost before = self.store@;
            let mut c = match self.store.take_at(i) {
                Some(c) => c,
                None => {
                    i = i + 1;
                    continue ;
                },
            };
            proof {
                assert(slot_wf(before[i as int]));
                lemma_store_wf_preserved(before, self.store@, i as int);
            }
            let mut vis = match c.visibility.take() {
                Some(v) => v,
                None => {
                    self.store.restore(i, c);
                    proof {
                        lemma_store_wf_preserved(before, self.store@, i as int);
                    }
                    i = i + 1;
                    continue ;
                },
            };
            // gather the candidates: every other live entity
            let mut candidates: Vec<(GameEntity, crate::position::GlobalLocation)> = Vec::new();
            let mut others: Vec<(GameEntity, Option<MovementUpdate>)> = Vec::new();
            let mut j: usize = 0;
            while j < n
                invariant
                    self.wf(),
                    n == self.store@.len(),
                    forall|q: int| 0 <= q < candidates@.len()
                        ==> crate::position::location_in_bounds(
                        (#[trigger] candidates@[q]).1,
                    ),
                decreases n - j,
            {
                if j != i {
                    match self.store.handle_at(j) {
                        Some(h) => {
                            match self.store.get(h) {
                                Some(tc) => {
                                    proof {
                                        assert(slot_wf(self.store@[j as int]));
                                        lemma_location_bounded(tc.position);
                                    }
                                    candidates.push((tc.game_entity, tc.position.location()));
                                    others.push((tc.game_entity, tc.synchronize.movement));
                                },
                                None => {},
                            }
                        },
                        None => {},
                    }
                }
                j = j + 1;
            }
            proof {
                lemma_location_bounded(c.position);
            }
            let center = c.position.location();
            let spawns = player_visibility_update(&mut vis, center, &candidates, &mut c.synchronize);
            let moves = sync_changes_others(&vis.entities_in_radius, &others);
            let own = if c.synchronize.despawned.len() <= 65535 {
                update_client(&c.game_entity, &c.synchronize)
            } else {
                Vec::new()
            };
            let mut batch = spawns;
            let mut moves = moves;
            let mut own = own;
            batch.append(&mut moves);
            batch.append(&mut own);
            if batch.len() > 0 {
                out.push((c.game_entity.unique_id, batch));
            }
            c.visibility = Some(vis);
            self.store.restore(i, c);
            proof {
                lemma_store_wf_preserved(before, self.store@, i as int);
            }
            i = i + 1;
        }
        out
    }

    /// Cleanup: drain every synchronization accumulator and reset every
    /// input buffer, so that no diff is delivered twice and nothing carries
    /// over into the next tick.
    pub fn cleanup_phase(&mut self)
        requires
            old(self).wf(),
        ensures
            final(self).wf(),
            final(self).store@.len() == old(self).store@.len(),
            all_accumulators_clear(final(self).store@),
            // nothing besides the accumulators and input buffers changes
            forall|i: int|
                0 <= i < old(self).store@.len() ==> cleanup_slot_rel(
                    old(self).store@[i],
                    #[trigger] final(self).store@[i],
                ),
            final(self).allocator == old(self).allocator,
            final(self).attack_counter == old(self).attack_counter,
    {
        let n = self.store.len();
        let mut i: usize = 0;
        while i < n
            invariant
                self.wf(),
                n == self.store@.len(),
                self.store@.len() == old(self).store@.len(),
                self.allocator == old(self).allocator,
                self.attack_counter == old(self).attack_counter,
                forall|q: int|
                    0 <= q < i ==> match (#[trigger] self.store@[q]).occupant {
                        Some(c) => c.synchronize.spec_is_empty() && match c.input {
                            Some(inp) => inp.spec_is_empty(),
                            None => true,
                        },
                        None => true,
                    },
                forall|q: int|
                    0 <= q < n ==> cleanup_slot_rel(
                        old(self).store@[q],
                        #[trigger] self.store@[q],
                    ),
            decreases n - i,
        {
            let ghost before = self.store@;
            match self.store.take_at(i) {
                Some(mut c) => {
                    proof {
                        assert(slot_wf(before[i as int]));
                    }
                    c.synchronize.clear();
                    match c.input.take() {
                        Some(mut inp) => {
                            inp.reset();
                            c.input = Some(inp);
                        },
                        None => {},
                    }
                    self.store.restore(i, c);
                    proof {
                        lemma_store_wf_preserved(before, self.store@, i as int);
                    }
                },
                None => {},
            }
            i = i + 1;
        }
    }

    /// One simulation tick: the Input, Execute and Broadcast phases run
    /// strictly in order, and the trailing Cleanup leaves every
    /// synchronization accumulator and every input buffer empty — the next
    /// tick's Input phase always starts from a clean world, so no diff is
    /// ever delivered twice. Mode transitions (the Transition phase) are
    /// applied between Input and Execute through `start_action`.
    pub fn tick(&mut self, delta_ms: u32, inputs: Vec<(EntityHandle, ClientPacket)>) -> (out: (
        Vec<(u32, Vec<ServerPacket>)>,
        Vec<(u32, GameInputEvent)>,
    ))
        requires
            old(self).wf(),
            old(self).attack_counter.spec_next() + old(self).store@.len() <= u64::MAX,
            old(self).allocator.spec_next() + old(self).store@.len() <= u32::MAX,
        ensures
            final(self).wf(),
            all_accumulators_clear(final(self).store@),
    {
        let (mut out, events) = self.input_phase(inputs);
        let mut action_out = self.execute_actions(delta_ms);
        let mut pickup_out = self.execute_pickups(delta_ms);
        let mut inventory_out = self.execute_inventory();
        let mut broadcast_out = self.broadcast_phase();
        out.append(&mut action_out);
        out.append(&mut pickup_out);
        out.append(&mut inventory_out);
        out.append(&mut broadcast_out);
        self.cleanup_phase();
        (out, events)
    }
}

} // verus!
