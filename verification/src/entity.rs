use vstd::prelude::*;

verus! {

/// The world-facing identity of a live object: the static-data entry it was
/// spawned from and its server-assigned runtime id.
#[derive(Copy, Clone, Eq, PartialEq, Structural, Debug)]
pub struct GameEntity {
    pub ref_id: u32,
    pub unique_id: u32,
}

/// Allocates runtime unique ids, strictly increasing: an id is never handed
/// out twice.
#[derive(Copy, Clone, Eq, PartialEq, Structural, Debug)]
pub struct IdAllocator {
    next: u32,
}

impl IdAllocator {
    pub closed spec fn spec_next(&self) -> u32 {
        self.next
    }

    pub fn new() -> (r: IdAllocator)
        ensures
            r.spec_next() == 1,
    {
        IdAllocator { next: 1 }
    }

    pub fn allocate(&mut self) -> (r: u32)
        requires
            old(self).spec_next() < u32::MAX,
        ensures
            r == old(self).spec_next(),
            final(self).spec_next() == old(self).spec_next() + 1,
    {
        let id = self.next;
        self.next = self.next + 1;
        id
    }
}

/// Allocates attack-instance ids, strictly increasing across all attacks in
/// the process.
#[derive(Copy, Clone, Eq, PartialEq, Structural, Debug)]
pub struct AttackInstanceCounter {
    next: u64,
}

impl AttackInstanceCounter {
    pub closed spec fn spec_next(&self) -> u64 {
        self.next
    }

    pub fn new() -> (r: AttackInstanceCounter)
        ensures
            r.spec_next() == 0,
    {
        AttackInstanceCounter { next: 0 }
    }

    pub fn next(&mut self) -> (r: u64)
        requires
            old(self).spec_next() < u64::MAX,
        ensures
            r == old(self).spec_next(),
            final(self).spec_next() == old(self).spec_next() + 1,
    {
        let id = self.next;
        self.next = self.next + 1;
        id
    }
}

/// A reference an event carries to a live entity: its runtime handle id and
/// its world identity.
#[derive(Copy, Clone, Eq, PartialEq, Structural, Debug)]
pub struct EntityReference(pub u32, pub GameEntity);

} // verus!
