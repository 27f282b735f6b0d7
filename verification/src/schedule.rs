use vstd::prelude::*;

verus! {

/// The ordered stages of one tick.
#[derive(Copy, Clone, Eq, PartialEq, Structural, Debug)]
pub enum Phase {
    Input,
    Transition,
    Execute,
    Broadcast,
    Cleanup,
}

/// The place of a phase in the fixed phase order.
pub open spec fn spec_phase_index(p: Phase) -> int {
    match p {
        Phase::Input => 0,
        Phase::Transition => 1,
        Phase::Execute => 2,
        Phase::Broadcast => 3,
        Phase::Cleanup => 4,
    }
}

/// The component types a system may declare access to.
#[derive(Copy, Clone, Eq, PartialEq, Structural, Debug)]
pub enum ComponentKind {
    Identity,
    Location,
    Accumulator,
    VisibleSet,
    Slots,
    Pouch,
    ActionState,
    PickupClaim,
    GroundItem,
    PlayerInfo,
    InputBuffer,
}

/// One system's declaration: the phase it runs in, its sequence step within
/// that phase (steps run strictly in order; only systems of the same step
/// may run concurrently), and the component types it reads and writes.
/// Cross-system safety is a property of these declarations, not of runtime
/// locks.
#[derive(Clone, Eq, PartialEq, Debug)]
pub struct SystemDeclaration {
    pub phase: Phase,
    pub step: u32,
    pub reads: Vec<ComponentKind>,
    pub writes: Vec<ComponentKind>,
}

/// Whether the two access lists share a component type.
pub open spec fn spec_overlaps(a: Seq<ComponentKind>, b: Seq<ComponentKind>) -> bool {
    exists|i: int| 0 <= i < a.len() && b.contains(a[i])
}

/// Two systems that could run concurrently (same phase, same step) conflict
/// when one writes what the other reads or writes.
pub open spec fn spec_conflicts(a: SystemDeclaration, b: SystemDeclaration) -> bool {
    &&& a.phase == b.phase
    &&& a.step == b.step
    &&& (spec_overlaps(a.writes@, b.writes@) || spec_overlaps(a.writes@, b.reads@)
        || spec_overlaps(b.writes@, a.reads@))
}

fn contains_kind(list: &Vec<ComponentKind>, kind: ComponentKind) -> (r: bool)
    ensures
        r == list@.contains(kind),
{
    let mut i: usize = 0;
    while i < list.len()
        invariant
            i <= list@.len(),
            forall|j: int| 0 <= j < i ==> list@[j] != kind,
        decreases list@.len() - i,
    {
        if list[i] == kind {
            return true;
        }
        i = i + 1;
    }
    false
}

fn overlaps(a: &Vec<ComponentKind>, b: &Vec<ComponentKind>) -> (r: bool)
    ensures
        r == spec_overlaps(a@, b@),
{
    let mut i: usize = 0;
    while i < a.len()
        invariant
            i <= a@.len(),
            forall|j: int| 0 <= j < i ==> !b@.contains(#[trigger] a@[j]),
        decreases a@.len() - i,
    {
        if contains_kind(b, a[i]) {
            return true;
        }
        i = i + 1;
    }
    false
}

fn conflicts(a: &SystemDeclaration, b: &SystemDeclaration) -> (r: bool)
    ensures
        r == spec_conflicts(*a, *b),
{
    if !matches!(
        (a.phase, b.phase),
        (Phase::Input, Phase::Input) | (Phase::Transition, Phase::Transition) | (
            Phase::Execute,
            Phase::Execute,
        ) | (Phase::Broadcast, Phase::Broadcast) | (Phase::Cleanup, Phase::Cleanup),
    ) {
        return false;
    }
    if a.step != b.step {
        return false;
    }
    overlaps(&a.writes, &b.writes) || overlaps(&a.writes, &b.reads) || overlaps(
        &b.writes,
        &a.reads,
    )
}

/// A schedule is valid when no two distinct systems of the same phase have
/// conflicting access declarations: every pair that could run concurrently
/// is provably independent.
pub open spec fn spec_schedule_valid(systems: Seq<SystemDeclaration>) -> bool {
    forall|i: int, j: int|
        0 <= i < j < systems.len() ==> !spec_conflicts(systems[i], systems[j])
}

/// Check a schedule's declarations at startup; a world wired from a valid
/// schedule never lets two concurrent systems touch the same component type
/// with a write.
pub fn validate_schedule(systems: &Vec<SystemDeclaration>) -> (r: bool)
    ensures
        r == spec_schedule_valid(systems@),
{
    let mut i: usize = 0;
    while i < systems.len()
        invariant
            i <= systems@.len(),
            forall|p: int, q: int|
                0 <= p < q < systems@.len() && p < i ==> !spec_conflicts(
                    systems@[p],
                    systems@[q],
                ),
        decreases systems@.len() - i,
    {
        let mut j: usize = i + 1;
        while j < systems.len()
            invariant
                i < j || j == i + 1,
                i < systems@.len(),
                j <= systems@.len(),
                forall|q: int| i < q < j ==> !spec_conflicts(systems@[i as int], systems@[q]),
            decreases systems@.len() - j,
        {
            if conflicts(&systems[i], &systems[j]) {
                return false;
            }
            j = j + 1;
        }
        i = i + 1;
    }
    true
}

fn declare(
    phase: Phase,
    step: u32,
    reads: Vec<ComponentKind>,
    writes: Vec<ComponentKind>,
) -> (r: SystemDeclaration)
    ensures
        r == (SystemDeclaration { phase, step, reads, writes }),
{
    SystemDeclaration { phase, step, reads, writes }
}

/// The schedule this core runs: the input drain, the Execute systems for
/// actions, then pickups and inventory in a later step (they write the slots
/// the action system reads its weapon from), the Broadcast system, and the
/// trailing Cleanup. The phases come in tick order — in particular Cleanup
/// stands last, after Broadcast — and the declarations are conflict-free.
pub fn standard_schedule() -> (r: Vec<SystemDeclaration>)
    ensures
        r@.len() == 6,
        r@[0].phase == Phase::Input && r@[0].step == 0 && r@[0].writes@ =~= seq![
            ComponentKind::InputBuffer,
        ],
        r@[1].phase == Phase::Transition && r@[1].step == 0 && r@[1].writes@ =~= seq![
            ComponentKind::ActionState,
        ],
        r@[2].phase == Phase::Execute && r@[2].step == 0 && r@[2].writes@ =~= seq![
            ComponentKind::ActionState,
            ComponentKind::Accumulator,
        ],
        r@[3].phase == Phase::Execute && r@[3].step == 1 && r@[3].writes@ =~= seq![
            ComponentKind::PickupClaim,
            ComponentKind::Pouch,
            ComponentKind::Slots,
        ],
        r@[4].phase == Phase::Broadcast && r@[4].step == 0 && r@[4].writes@ =~= seq![
            ComponentKind::VisibleSet,
            ComponentKind::Accumulator,
        ],
        r@[5].phase == Phase::Cleanup && r@[5].step == 0 && r@[5].writes@ =~= seq![
            ComponentKind::Accumulator,
            ComponentKind::InputBuffer,
        ],
        forall|i: int, j: int|
            0 <= i < j < r@.len() ==> spec_phase_index(r@[i].phase) <= spec_phase_index(
                r@[j].phase,
            ),
        spec_schedule_valid(r@),
{
    let mut systems: Vec<SystemDeclaration> = Vec::new();
    systems.push(declare(Phase::Input, 0, vec![ComponentKind::Identity], vec![
        ComponentKind::InputBuffer,
    ]));
    systems.push(
        declare(
            Phase::Transition,
            0,
            vec![ComponentKind::Identity, ComponentKind::InputBuffer],
            vec![ComponentKind::ActionState],
        ),
    );
    systems.push(
        declare(
            Phase::Execute,
            0,
            vec![
                ComponentKind::Identity,
                ComponentKind::PlayerInfo,
                ComponentKind::Slots,
            ],
            vec![ComponentKind::ActionState, ComponentKind::Accumulator],
        ),
    );
    systems.push(
        declare(
            Phase::Execute,
            1,
            vec![ComponentKind::Identity, ComponentKind::GroundItem],
            vec![
                ComponentKind::PickupClaim,
                ComponentKind::Pouch,
                ComponentKind::Slots,
            ],
        ),
    );
    systems.push(
        declare(
            Phase::Broadcast,
            0,
            vec![ComponentKind::Identity, ComponentKind::Location],
            vec![ComponentKind::VisibleSet, ComponentKind::Accumulator],
        ),
    );
    systems.push(
        declare(
            Phase::Cleanup,
            0,
            vec![ComponentKind::Identity],
            vec![ComponentKind::Accumulator, ComponentKind::InputBuffer],
        ),
    );
    systems
}

} // verus!
