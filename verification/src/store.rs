use vstd::prelude::*;
use crate::action::Action;
use crate::entity::GameEntity;
use crate::gold::GoldPouch;
use crate::inventory::Inventory;
use crate::inputs::PlayerInput;
use crate::item::Item;
use crate::position::Position;
use crate::sync::Synchronize;
use crate::visibility::Visibility;

verus! {

/// A ground item waiting to be picked up.
#[derive(Copy, Clone, Eq, PartialEq, Structural, Debug)]
pub struct DroppedItem {
    pub item: Item,
    pub owner: Option<u32>,
}

/// Player-level data that combat and inventory validation read.
#[derive(Copy, Clone, Eq, PartialEq, Structural, Debug)]
pub struct PlayerData {
    pub level: u8,
    pub race: crate::objects::Race,
    pub strength: u16,
}

/// An in-progress pickup: the claimed ground item and, once the claim is
/// made, the remaining animation cooldown in milliseconds.
#[derive(Copy, Clone, Eq, PartialEq, Structural, Debug)]
pub struct PickupState {
    pub target: EntityHandle,
    pub cooldown: Option<u32>,
}

/// The typed state fragments an entity can carry. Identity, position and the
/// synchronization accumulator are always present; the rest is sparse.
#[derive(Clone, Eq, PartialEq, Debug)]
pub struct Components {
    pub game_entity: GameEntity,
    pub position: Position,
    pub synchronize: Synchronize,
    pub visibility: Option<Visibility>,
    pub inventory: Option<Inventory>,
    pub gold: Option<GoldPouch>,
    pub action: Option<Action>,
    pub pickup: Option<PickupState>,
    pub dropped: Option<DroppedItem>,
    pub player: Option<PlayerData>,
    pub input: Option<PlayerInput>,
}

/// A generation-stamped handle to a live entity. A handle from before the
/// occupant was despawned never resolves again, even if the slot is reused.
#[derive(Copy, Clone, Eq, PartialEq, Structural, Debug)]
pub struct EntityHandle {
    pub index: usize,
    pub generation: u32,
}

/// One arena slot: its current generation stamp and its occupant, if any.
#[derive(Clone, Eq, PartialEq, Debug)]
pub struct Slot {
    pub generation: u32,
    pub occupant: Option<Components>,
}

/// The authoritative world-state container: an arena of generation-stamped
/// slots. Removing an entity invalidates all its components atomically, and
/// later lookups through the stale handle find nothing.
#[derive(Debug)]
pub struct EntityStore {
    slots: Vec<Slot>,
}

impl View for EntityStore {
    type V = Seq<Slot>;

    closed spec fn view(&self) -> Seq<Slot> {
        self.slots@
    }
}

impl EntityStore {
    /// Whether a handle resolves to a live occupant.
    pub open spec fn spec_valid(&self, e: EntityHandle) -> bool {
        &&& e.index < self@.len()
        &&& self@[e.index as int].generation == e.generation
        &&& self@[e.index as int].occupant is Some
    }

    /// The components of a live occupant.
    pub open spec fn spec_at(&self, e: EntityHandle) -> Components
        recommends
            self.spec_valid(e),
    {
        self@[e.index as int].occupant->Some_0
    }

    pub fn new() -> (r: EntityStore)
        ensures
            r@.len() == 0,
    {
        EntityStore { slots: Vec::new() }
    }

    pub fn len(&self) -> (r: usize)
        ensures
            r == self@.len(),
    {
        self.slots.len()
    }

    /// Spawn an entity atomically with all its components. A free slot is
    /// reused under its bumped generation; otherwise the arena grows.
    pub fn spawn(&mut self, components: Components) -> (e: EntityHandle)
        ensures
            final(self).spec_valid(e),
            final(self).spec_at(e) == components,
            // every other slot is untouched
            final(self)@.len() >= old(self)@.len(),
            forall|i: int|
                0 <= i < old(self)@.len() && i != e.index as int ==> final(self)@[i] == old(
                    self,
                )@[i],
            // generation stamps never move backwards
            e.index < old(self)@.len() ==> {
                &&& old(self)@[e.index as int].occupant is None
                &&& e.generation == old(self)@[e.index as int].generation
            },
            e.index >= old(self)@.len() ==> final(self)@.len() == old(self)@.len() + 1,
            e.index < old(self)@.len() ==> final(self)@.len() == old(self)@.len(),
    {
        let mut i: usize = 0;
        while i < self.slots.len()
            invariant
                i <= self@.len(),
                self@ == old(self)@,
                forall|j: int| 0 <= j < i ==> (#[trigger] self@[j]).occupant is Some,
            decreases self@.len() - i,
        {
            if self.slots[i].occupant.is_none() {
                let generation = self.slots[i].generation;
                self.slots[i] = Slot { generation, occupant: Some(components) };
                return EntityHandle { index: i, generation };
            }
            i = i + 1;
        }
        let index = self.slots.len();
        self.slots.push(Slot { generation: 0, occupant: Some(components) });
        EntityHandle { index, generation: 0 }
    }

    /// Remove an entity and all its components atomically; the slot's
    /// generation is bumped, so the handle (and any copy of it) goes stale.
    pub fn despawn(&mut self, e: EntityHandle) -> (removed: bool)
        ensures
            removed == (old(self).spec_valid(e) && e.generation < u32::MAX),
            final(self)@.len() == old(self)@.len(),
            forall|i: int|
                0 <= i < old(self)@.len() && i != e.index as int ==> final(self)@[i] == old(
                    self,
                )@[i],
            removed ==> final(self)@[e.index as int] == (Slot {
                generation: (e.generation + 1) as u32,
                occupant: None,
            }),
            !removed ==> final(self)@ == old(self)@,
            removed ==> !final(self).spec_valid(e),
    {
        if e.index >= self.slots.len() {
            return false;
        }
        let live = self.slots[e.index].generation == e.generation && self.slots[e.index]
            .occupant
            .is_some();
        if !live {
            return false;
        }
        if e.generation == u32::MAX {
            // the stamp cannot grow further; bumping it would wrap and a
            // reuse of the slot could alias, so a saturated slot is refused
            return false;
        }
        self.slots[e.index] = Slot { generation: e.generation + 1, occupant: None };
        true
    }

    /// The current generation stamp of a slot.
    pub fn generation_of(&self, index: usize) -> (r: u32)
        requires
            index < self@.len(),
        ensures
            r == self@[index as int].generation,
    {
        self.slots[index].generation
    }

    /// The current handle of a slot's occupant, if the slot is occupied.
    pub fn handle_at(&self, index: usize) -> (r: Option<EntityHandle>)
        requires
            index < self@.len(),
        ensures
            match r {
                Some(e) => e.index == index && self.spec_valid(e),
                None => self@[index as int].occupant is None,
            },
    {
        if self.slots[index].occupant.is_some() {
            Some(EntityHandle { index, generation: self.slots[index].generation })
        } else {
            None
        }
    }

    pub fn get(&self, e: EntityHandle) -> (r: Option<&Components>)
        ensures
            match r {
                Some(c) => self.spec_valid(e) && *c == self.spec_at(e),
                None => !self.spec_valid(e),
            },
    {
        if e.index >= self.slots.len() {
            return None;
        }
        if self.slots[e.index].generation != e.generation {
            return None;
        }
        self.slots[e.index].occupant.as_ref()
    }

    /// Replace the components of a live entity.
    pub fn set(&mut self, e: EntityHandle, components: Components)
        requires
            old(self).spec_valid(e),
        ensures
            final(self).spec_valid(e),
            final(self).spec_at(e) == components,
            final(self)@.len() == old(self)@.len(),
            forall|i: int|
                0 <= i < old(self)@.len() && i != e.index as int ==> final(self)@[i] == old(
                    self,
                )@[i],
            final(self)@[e.index as int].generation == old(self)@[e.index as int].generation,
    {
        let generation = self.slots[e.index].generation;
        self.slots[e.index] = Slot { generation, occupant: Some(components) };
    }

    /// Take the components behind a handle, leaving the slot empty at the
    /// same generation, to be put back with `restore`; a stale handle finds
    /// nothing and changes nothing.
    pub fn take(&mut self, e: EntityHandle) -> (r: Option<Components>)
        ensures
            final(self)@.len() == old(self)@.len(),
            match r {
                Some(c) => {
                    &&& old(self).spec_valid(e)
                    &&& old(self).spec_at(e) == c
                    &&& final(self)@[e.index as int] == (Slot {
                        generation: e.generation,
                        occupant: None,
                    })
                    &&& forall|i: int|
                        0 <= i < old(self)@.len() && i != e.index as int ==> final(self)@[i]
                            == old(self)@[i]
                },
                None => {
                    &&& final(self)@ == old(self)@
                    &&& !old(self).spec_valid(e)
                },
            },
    {
        if e.index >= self.slots.len() {
            return None;
        }
        if self.slots[e.index].generation != e.generation {
            return None;
        }
        self.take_at(e.index)
    }

    /// Take the components of a live slot by index, leaving it empty but at
    /// the same generation, to be put back with `restore`.
    pub fn take_at(&mut self, index: usize) -> (r: Option<Components>)
        ensures
            final(self)@.len() == old(self)@.len(),
            match r {
                Some(c) => {
                    &&& old(self)@[index as int].occupant == Some(c)
                    &&& final(self)@[index as int] == (Slot {
                        generation: old(self)@[index as int].generation,
                        occupant: None,
                    })
                    &&& forall|i: int|
                        0 <= i < old(self)@.len() && i != index as int ==> final(self)@[i] == old(
                            self,
                        )@[i]
                },
                None => {
                    &&& final(self)@ == old(self)@
                    &&& (index < old(self)@.len() ==> old(self)@[index as int].occupant is None)
                },
            },
    {
        if index >= self.slots.len() {
            return None;
        }
        self.slots[index].occupant.take()
    }

    /// Put taken components back into their slot.
    pub fn restore(&mut self, index: usize, components: Components)
        requires
            index < old(self)@.len(),
        ensures
            final(self)@.len() == old(self)@.len(),
            final(self)@[index as int] == (Slot {
                generation: old(self)@[index as int].generation,
                occupant: Some(components),
            }),
            forall|i: int|
                0 <= i < old(self)@.len() && i != index as int ==> final(self)@[i] == old(
                    self,
                )@[i],
    {
        let generation = self.slots[index].generation;
        self.slots[index] = Slot { generation, occupant: Some(components) };
    }
}

/// Law: a handle held across a despawn never aliases a later occupant of the
/// same slot — the despawn bumps the generation, and a spawn reuses the slot
/// only under the bumped stamp, so the stale handle resolves to nothing.
pub proof fn lemma_stale_handle_never_aliases(
    before: EntityStore,
    mid: EntityStore,
    after: EntityStore,
    e: EntityHandle,
    e2: EntityHandle,
)
    requires
        before.spec_valid(e),
        // the despawn happened
        mid@.len() == before@.len(),
        mid@[e.index as int] == (Slot { generation: (e.generation + 1) as u32, occupant: None }),
        e.generation < u32::MAX,
        // the slot was then reused by a spawn
        e2.index == e.index,
        after.spec_valid(e2),
        e2.generation == mid@[e.index as int].generation,
    ensures
        !mid.spec_valid(e),
        e2.generation != e.generation,
{
}

} // verus!
