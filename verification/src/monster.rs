use vstd::prelude::*;
use crate::entity::GameEntity;
use crate::position::{GlobalLocation, Position};
use crate::store::EntityHandle;
use crate::sync::Synchronize;
use crate::visibility::Visibility;

verus! {

/// The rarity grade of a spawned entity.
#[derive(Copy, Clone, Eq, PartialEq, Structural, Debug)]
pub enum EntityRarity {
    Normal,
    Champion,
    Unique,
    Giant,
    Titan,
    Elite,
}

/// A monster: its current target, if any, and its rarity.
#[derive(Copy, Clone, Eq, PartialEq, Structural, Debug)]
pub struct Monster {
    pub target: Option<EntityHandle>,
    pub rarity: EntityRarity,
}

/// The non-owning back-reference from a monster to the spawner that created
/// it, for population bookkeeping on death. Despawning either side leaves
/// the other alive; a stale handle is an expected, handled case.
#[derive(Copy, Clone, Eq, PartialEq, Structural, Debug)]
pub struct SpawnedBy {
    pub spawner: EntityHandle,
}

/// Idle wandering around an origin, checked on a fixed interval. The radius
/// is in tenths of a unit, the timer in milliseconds.
#[derive(Copy, Clone, Eq, PartialEq, Structural, Debug)]
pub struct RandomStroll {
    pub origin: GlobalLocation,
    pub radius_tenths: u32,
    pub check_timer_ms: u32,
    pub check_interval_ms: u32,
}

impl RandomStroll {
    pub fn new(origin: GlobalLocation, radius_tenths: u32, interval_ms: u32) -> (r: Self)
        ensures
            r == (RandomStroll {
                origin,
                radius_tenths,
                check_timer_ms: interval_ms,
                check_interval_ms: interval_ms,
            }),
    {
        RandomStroll {
            origin,
            radius_tenths,
            check_timer_ms: interval_ms,
            check_interval_ms: interval_ms,
        }
    }
}

/// The spawn settings a spawner is built from.
#[derive(Copy, Clone, Eq, PartialEq, Structural, Debug)]
pub struct SpawnOptions {
    pub radius_tenths: u32,
    pub amount: usize,
}

/// A monster spawner: its target population and how many of its spawns are
/// currently alive. The live count never exceeds the target.
#[derive(Copy, Clone, Eq, PartialEq, Structural, Debug)]
pub struct Spawner {
    pub active: bool,
    pub radius_tenths: u32,
    pub ref_id: u32,
    pub target_amount: usize,
    pub current_amount: usize,
}

impl Spawner {
    /// The population invariant.
    pub open spec fn wf(&self) -> bool {
        self.current_amount <= self.target_amount
    }

    pub fn new(settings: &SpawnOptions, spawned: u32) -> (r: Self)
        ensures
            r == (Spawner {
                active: false,
                radius_tenths: settings.radius_tenths,
                ref_id: spawned,
                target_amount: settings.amount,
                current_amount: 0usize,
            }),
            r.wf(),
    {
        Spawner {
            active: false,
            radius_tenths: settings.radius_tenths,
            ref_id: spawned,
            target_amount: settings.amount,
            current_amount: 0,
        }
    }

    pub fn has_spots_available(&self) -> (r: bool)
        ensures
            r == (self.current_amount < self.target_amount),
    {
        self.current_amount < self.target_amount
    }

    /// Record one spawned monster; only possible while a spot is available,
    /// so the population invariant is kept.
    pub fn record_spawn(&mut self)
        requires
            old(self).wf(),
            old(self).current_amount < old(self).target_amount,
        ensures
            *final(self) == (Spawner {
                current_amount: (old(self).current_amount + 1) as usize,
                ..*old(self)
            }),
            final(self).wf(),
    {
        self.current_amount = self.current_amount + 1;
    }

    /// Record the death of one of this spawner's monsters.
    pub fn record_death(&mut self)
        requires
            old(self).wf(),
            old(self).current_amount > 0,
        ensures
            *final(self) == (Spawner {
                current_amount: (old(self).current_amount - 1) as usize,
                ..*old(self)
            }),
            final(self).wf(),
    {
        self.current_amount = self.current_amount - 1;
    }
}

/// Everything a freshly spawned monster carries.
#[derive(Clone, Eq, PartialEq, Debug)]
pub struct MonsterBundle {
    pub monster: Monster,
    pub health: u32,
    pub position: Position,
    pub entity: GameEntity,
    pub visibility: Visibility,
    pub spawner: SpawnedBy,
    pub sync: Synchronize,
    pub stroll: RandomStroll,
}

} // verus!
