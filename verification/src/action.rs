use vstd::prelude::*;
use rand::Rng;
use crate::entity::{AttackInstanceCounter, EntityReference};
use crate::item::RefItemData;
use crate::position::GlobalLocation;

verus! {

/// What an action is aimed at.
#[derive(Copy, Clone, Eq, PartialEq, Structural, Debug)]
pub enum ActionTarget {
    NoTarget,
    Own,
    Entity(u32),
    Location(GlobalLocation),
}

/// The four timed stages of a skill execution, in order.
#[derive(Copy, Clone, Eq, PartialEq, Ord, PartialOrd, Structural, Debug)]
pub enum ActionProgressState {
    Preparation,
    Casting,
    Execution,
    Teardown,
}

/// The position of a stage in the fixed stage order.
pub open spec fn stage_index(s: ActionProgressState) -> int {
    match s {
        ActionProgressState::Preparation => 0,
        ActionProgressState::Casting => 1,
        ActionProgressState::Execution => 2,
        ActionProgressState::Teardown => 3,
    }
}

/// The static timing table of a skill, in milliseconds.
#[derive(Copy, Clone, Eq, PartialEq, Structural, Debug)]
pub struct SkillTimings {
    pub preparation_time: u32,
    pub cast_time: u32,
    pub duration: i32,
    pub next_delay: u32,
}

impl SkillTimings {
    /// All stage times fit a signed countdown, as the static data promises.
    pub open spec fn wf(&self) -> bool {
        &&& self.preparation_time <= i32::MAX
        &&& self.cast_time <= i32::MAX
        &&& self.next_delay <= i32::MAX
    }
}

/// A parameter of a skill's static data; only the attack parameter matters
/// to damage resolution.
#[derive(Copy, Clone, Eq, PartialEq, Structural, Debug)]
pub enum SkillParam {
    Attack,
    Other(u32),
}

/// The static data of one skill.
#[derive(Clone, Eq, PartialEq, Debug)]
pub struct RefSkillData {
    pub ref_id: u32,
    pub timings: SkillTimings,
    pub params: Vec<SkillParam>,
}

impl RefSkillData {
    /// Whether the skill carries an attack parameter.
    pub open spec fn spec_has_attack(&self) -> bool {
        exists|i: int| 0 <= i < self.params@.len() && self.params@[i] is Attack
    }

    pub fn has_attack(&self) -> (r: bool)
        ensures
            r == self.spec_has_attack(),
    {
        let mut i: usize = 0;
        while i < self.params.len()
            invariant
                i <= self.params@.len(),
                forall|j: int| 0 <= j < i ==> !(self.params@[j] is Attack),
            decreases self.params@.len() - i,
        {
            if matches!(self.params[i], SkillParam::Attack) {
                return true;
            }
            i = i + 1;
        }
        false
    }
}

/// The duration of a stage in milliseconds, as the timing table gives it.
pub open spec fn spec_stage_ms(s: ActionProgressState, t: SkillTimings) -> int {
    match s {
        ActionProgressState::Preparation => t.preparation_time as int,
        ActionProgressState::Casting => t.cast_time as int,
        ActionProgressState::Execution => t.duration as int,
        ActionProgressState::Teardown => t.next_delay as int,
    }
}

/// The stage after `s`, if one exists.
pub open spec fn spec_next_stage(s: ActionProgressState) -> Option<ActionProgressState> {
    match s {
        ActionProgressState::Preparation => Some(ActionProgressState::Casting),
        ActionProgressState::Casting => Some(ActionProgressState::Execution),
        ActionProgressState::Execution => Some(ActionProgressState::Teardown),
        ActionProgressState::Teardown => None,
    }
}

impl ActionProgressState {
    pub fn next(&self) -> (r: Option<ActionProgressState>)
        ensures
            r == spec_next_stage(*self),
    {
        match self {
            ActionProgressState::Preparation => Some(ActionProgressState::Casting),
            ActionProgressState::Casting => Some(ActionProgressState::Execution),
            ActionProgressState::Execution => Some(ActionProgressState::Teardown),
            ActionProgressState::Teardown => None,
        }
    }

    /// The countdown this stage runs for, or nothing when the stage is
    /// instant (a zero or negative table entry).
    pub fn get_time_for(&self, skill: &RefSkillData) -> (r: Option<i32>)
        requires
            skill.timings.wf(),
        ensures
            spec_stage_ms(*self, skill.timings) > 0 ==> r == Some(
                spec_stage_ms(*self, skill.timings) as i32,
            ),
            spec_stage_ms(*self, skill.timings) <= 0 ==> r is None,
    {
        let value: i32 = match self {
            ActionProgressState::Preparation => skill.timings.preparation_time as i32,
            ActionProgressState::Casting => skill.timings.cast_time as i32,
            ActionProgressState::Execution => skill.timings.duration,
            ActionProgressState::Teardown => skill.timings.next_delay as i32,
        };
        if value > 0 {
            Some(value)
        } else {
            None
        }
    }
}

/// An in-progress skill execution: present only while the actor is
/// mid-action; its removal is the sole way back to idle.
#[derive(Clone, Eq, PartialEq, Debug)]
pub struct Action {
    pub skill: RefSkillData,
    pub target: ActionTarget,
    pub state: ActionProgressState,
    pub remaining_ms: u32,
}

/// A skill paired with its target, ready to become a live action.
#[derive(Clone, Eq, PartialEq, Debug)]
pub struct ActionDescription(pub RefSkillData, pub ActionTarget);

impl From<ActionDescription> for Action {
    /// A fresh action starts in Preparation with that stage's full countdown.
    fn from(value: ActionDescription) -> (r: Action) {
        let remaining = value.0.timings.preparation_time;
        Action {
            skill: value.0,
            target: value.1,
            state: ActionProgressState::Preparation,
            remaining_ms: remaining,
        }
    }
}

impl vstd::std_specs::convert::FromSpecImpl<ActionDescription> for Action {
    open spec fn obeys_from_spec() -> bool {
        true
    }

    open spec fn from_spec(value: ActionDescription) -> Action {
        Action {
            skill: value.0,
            target: value.1,
            state: ActionProgressState::Preparation,
            remaining_ms: value.0.timings.preparation_time,
        }
    }
}

/// Advance out of a stage whose countdown has elapsed: enter the next stage,
/// running straight through instant stages, until a stage with a positive
/// countdown is reached or the action ends. The flag says whether the
/// Execution stage was entered on the way.
pub open spec fn spec_cascade(t: SkillTimings, s: ActionProgressState) -> (
    Option<(ActionProgressState, u32)>,
    bool,
)
    decreases 4 - stage_index(s),
{
    match spec_next_stage(s) {
        None => (None, false),
        Some(n) => {
            let ms = spec_stage_ms(n, t);
            if ms > 0 {
                (Some((n, ms as u32)), n is Execution)
            } else {
                let rest = spec_cascade(t, n);
                (rest.0, rest.1 || n is Execution)
            }
        },
    }
}

/// One tick of an action: the countdown shrinks by the elapsed time; when it
/// reaches zero the action advances. The flag says whether damage resolution
/// is owed this tick.
pub open spec fn spec_advance(
    t: SkillTimings,
    s: ActionProgressState,
    remaining: u32,
    delta: u32,
) -> (Option<(ActionProgressState, u32)>, bool) {
    if delta < remaining {
        (Some((s, (remaining - delta) as u32)), false)
    } else {
        spec_cascade(t, s)
    }
}

fn cascade(skill: &RefSkillData, state: ActionProgressState) -> (r: (
    Option<(ActionProgressState, u32)>,
    bool,
))
    requires
        skill.timings.wf(),
    ensures
        r == spec_cascade(skill.timings, state),
    decreases 4 - stage_index(state),
{
    match state.next() {
        None => (None, false),
        Some(n) => {
            let fired_here = matches!(n, ActionProgressState::Execution);
            match n.get_time_for(skill) {
                Some(ms) => (Some((n, ms as u32)), fired_here),
                None => {
                    let rest = cascade(skill, n);
                    (rest.0, rest.1 || fired_here)
                },
            }
        },
    }
}

/// The outcome of one action tick.
#[derive(Copy, Clone, Eq, PartialEq, Structural, Debug)]
pub struct AdvanceOutcome {
    /// The action ended; the component is to be removed.
    pub removed: bool,
    /// The Execution stage was entered: exactly one damage resolution is
    /// owed now.
    pub fired: bool,
}

/// Advance an action by `delta_ms` elapsed milliseconds.
pub fn advance_action(action: &mut Action, delta_ms: u32) -> (r: AdvanceOutcome)
    requires
        old(action).skill.timings.wf(),
    ensures
        final(action).skill == old(action).skill,
        final(action).target == old(action).target,
        ({
            let step = spec_advance(
                old(action).skill.timings,
                old(action).state,
                old(action).remaining_ms,
                delta_ms,
            );
            &&& r.fired == step.1
            &&& match step.0 {
                Some(next) => !r.removed && final(action).state == next.0
                    && final(action).remaining_ms == next.1,
                None => r.removed,
            }
        }),
{
    if delta_ms < action.remaining_ms {
        action.remaining_ms = action.remaining_ms - delta_ms;
        return AdvanceOutcome { removed: false, fired: false };
    }
    let step = cascade(&action.skill, action.state);
    match step.0 {
        Some(next) => {
            action.state = next.0;
            action.remaining_ms = next.1;
            AdvanceOutcome { removed: false, fired: step.1 }
        },
        None => AdvanceOutcome { removed: true, fired: step.1 },
    }
}

/// Whether an action state is at or past the Execution stage; a removed
/// action counts as past it.
pub open spec fn spec_reached_execution(st: Option<(ActionProgressState, u32)>) -> bool {
    match st {
        None => true,
        Some(next) => stage_index(next.0) >= 2,
    }
}

/// A cascade fires exactly when it crosses the Execution boundary, and it
/// only moves the stage forward.
pub proof fn lemma_cascade_crossing(t: SkillTimings, s: ActionProgressState)
    ensures
        ({
            let step = spec_cascade(t, s);
            &&& step.1 == (stage_index(s) < 2 && spec_reached_execution(step.0))
            &&& match step.0 {
                Some(next) => stage_index(next.0) > stage_index(s),
                None => true,
            }
        }),
    decreases 4 - stage_index(s),
{
    match spec_next_stage(s) {
        None => {},
        Some(n) => {
            if spec_stage_ms(n, t) > 0 {
            } else {
                lemma_cascade_crossing(t, n);
            }
        },
    }
}

/// One tick fires exactly when it crosses the Execution boundary, and it
/// only moves the stage forward.
pub proof fn lemma_advance_crossing(t: SkillTimings, s: ActionProgressState, rem: u32, delta: u32)
    ensures
        ({
            let step = spec_advance(t, s, rem, delta);
            &&& step.1 == (stage_index(s) < 2 && spec_reached_execution(step.0))
            &&& match step.0 {
                Some(next) => stage_index(next.0) >= stage_index(s),
                None => true,
            }
        }),
{
    if delta < rem {
    } else {
        lemma_cascade_crossing(t, s);
    }
}

/// Run an action through a whole sequence of ticks: the final state (or its
/// removal) and how many ticks fired a damage resolution.
pub open spec fn spec_run(
    t: SkillTimings,
    s: ActionProgressState,
    rem: u32,
    deltas: Seq<u32>,
) -> (Option<(ActionProgressState, u32)>, nat)
    decreases deltas.len(),
{
    if deltas.len() == 0 {
        (Some((s, rem)), 0nat)
    } else {
        let step = spec_advance(t, s, rem, deltas[0]);
        let here: nat = if step.1 {
            1nat
        } else {
            0nat
        };
        match step.0 {
            None => (None, here),
            Some(next) => {
                let rest = spec_run(t, next.0, next.1, deltas.drop_first());
                (rest.0, here + rest.1)
            },
        }
    }
}

/// A run only moves the stage forward.
pub proof fn lemma_run_monotonic(t: SkillTimings, s: ActionProgressState, rem: u32, deltas: Seq<u32>)
    ensures
        match spec_run(t, s, rem, deltas).0 {
            Some(fin) => stage_index(fin.0) >= stage_index(s),
            None => true,
        },
    decreases deltas.len(),
{
    if deltas.len() == 0 {
    } else {
        lemma_advance_crossing(t, s, rem, deltas[0]);
        match spec_advance(t, s, rem, deltas[0]).0 {
            None => {},
            Some(next) => {
                lemma_run_monotonic(t, next.0, next.1, deltas.drop_first());
            },
        }
    }
}

/// Law: over any sequence of ticks, the number of damage resolutions an
/// action fires is exactly one when the run crosses the Execution boundary
/// (in particular when the action runs to removal), and zero otherwise; no
/// tick after the Execution stage has been reached fires again.
pub proof fn lemma_damage_fires_exactly_once(
    t: SkillTimings,
    s: ActionProgressState,
    rem: u32,
    deltas: Seq<u32>,
)
    ensures
        ({
            let run = spec_run(t, s, rem, deltas);
            run.1 == if stage_index(s) < 2 && spec_reached_execution_run(run.0) {
                1nat
            } else {
                0nat
            }
        }),
    decreases deltas.len(),
{
    if deltas.len() == 0 {
    } else {
        let step = spec_advance(t, s, rem, deltas[0]);
        lemma_advance_crossing(t, s, rem, deltas[0]);
        match step.0 {
            None => {},
            Some(next) => {
                lemma_run_monotonic(t, next.0, next.1, deltas.drop_first());
                lemma_damage_fires_exactly_once(t, next.0, next.1, deltas.drop_first());
            },
        }
    }
}

/// Whether a whole run ended at or past the Execution stage; a removed
/// action counts as past it.
pub open spec fn spec_reached_execution_run(st: Option<(ActionProgressState, u32)>) -> bool {
    match st {
        None => true,
        Some(fin) => stage_index(fin.0) >= 2,
    }
}

/// Law: an action that runs to removal fires exactly one damage resolution.
pub proof fn lemma_completed_action_fires_once(t: SkillTimings, deltas: Seq<u32>)
    requires
        spec_run(t, ActionProgressState::Preparation, t.preparation_time, deltas).0 is None,
    ensures
        spec_run(t, ActionProgressState::Preparation, t.preparation_time, deltas).1 == 1,
{
    lemma_damage_fires_exactly_once(
        t,
        ActionProgressState::Preparation,
        t.preparation_time,
        deltas,
    );
}

// ---------------------------------------------------------------------------
// Damage resolution.
// ---------------------------------------------------------------------------

/// The damage a player deals bare-handed.
pub const UNARMED_DAMAGE: u32 = 1;

/// The damage a non-player entity deals.
pub const BASELINE_DAMAGE: u32 = 10;

/// A physical damage bound: strength scaled by the weapon's reinforce bound
/// (stored in hundredths) plus the weapon's flat attack power bound.
pub open spec fn spec_damage_bound(strength: u16, reinforce_hundredths: u32, power: u32) -> int {
    strength * reinforce_hundredths / 100 + power
}

pub fn damage_bound(strength: u16, reinforce_hundredths: u32, power: u32) -> (r: u32)
    requires
        spec_damage_bound(strength, reinforce_hundredths, power) <= u32::MAX,
    ensures
        r == spec_damage_bound(strength, reinforce_hundredths, power),
{
    let scaled = (strength as u64) * (reinforce_hundredths as u64);
    proof {
        assert(strength as int * reinforce_hundredths as int <= 65535 * 0xffffffffu64)
            by (nonlinear_arith)
            requires
                strength <= 65535,
                reinforce_hundredths <= 0xffffffffu64,
        ;
    }
    let base = scaled / 100;
    base as u32 + power
}

/// The same bound without a range precondition, in 64 bits: the product of
/// a 16-bit strength and a 32-bit reinforce value always fits.
pub fn damage_bound_u64(strength: u16, reinforce_hundredths: u32, power: u32) -> (r: u64)
    ensures
        r == spec_damage_bound(strength, reinforce_hundredths, power),
{
    proof {
        assert(strength as int * reinforce_hundredths as int <= 65535 * 0xffffffffu64)
            by (nonlinear_arith)
            requires
                strength <= 65535,
                reinforce_hundredths <= 0xffffffffu64,
        ;
    }
    let scaled = (strength as u64) * (reinforce_hundredths as u64);
    scaled / 100 + power as u64
}

/// Relies on rand's thread-local generator: `gen_range` on an inclusive
/// range returns a value within it.
#[verifier::external_body]
fn random_in_range(lower: u32, upper: u32) -> (r: u32)
    requires
        lower <= upper,
    ensures
        lower <= r <= upper,
{
    rand::thread_rng().gen_range(lower..=upper)
}

/// One resolved attack: which skill and which global attack instance.
#[derive(Copy, Clone, Eq, PartialEq, Structural, Debug)]
pub struct AttackDefinition {
    pub skill_ref: u32,
    pub instance: u64,
}

/// A damage notification, to be applied to the target.
#[derive(Copy, Clone, Eq, PartialEq, Structural, Debug)]
pub struct DamageReceiveEvent {
    pub source: EntityReference,
    pub target: EntityReference,
    pub attack: AttackDefinition,
    pub amount: u32,
}

/// Compute the damage of one resolved attack: a player with a weapon rolls
/// uniformly between the weapon's strength-scaled bounds, an unarmed player
/// deals the fixed unarmed value, and a non-player deals the fixed baseline.
pub fn resolve_damage_amount(strength: u16, weapon: Option<&RefItemData>, is_player: bool) -> (r:
    u32)
    requires
        is_player ==> match weapon {
            Some(w) => {
                &&& spec_damage_bound(strength, w.physical_reinforce_lower, w.physical_attack_power_lower)
                    <= spec_damage_bound(
                    strength,
                    w.physical_reinforce_upper,
                    w.physical_attack_power_upper,
                )
                &&& spec_damage_bound(
                    strength,
                    w.physical_reinforce_upper,
                    w.physical_attack_power_upper,
                ) <= u32::MAX
            },
            None => true,
        },
    ensures
        match weapon {
            Some(w) => is_player ==> spec_damage_bound(
                strength,
                w.physical_reinforce_lower,
                w.physical_attack_power_lower,
            ) <= r <= spec_damage_bound(
                strength,
                w.physical_reinforce_upper,
                w.physical_attack_power_upper,
            ),
            None => is_player ==> r == UNARMED_DAMAGE,
        },
        !is_player ==> r == BASELINE_DAMAGE,
{
    if !is_player {
        return BASELINE_DAMAGE;
    }
    match weapon {
        Some(w) => {
            let lower = damage_bound(
                strength,
                w.physical_reinforce_lower,
                w.physical_attack_power_lower,
            );
            let upper = damage_bound(
                strength,
                w.physical_reinforce_upper,
                w.physical_attack_power_upper,
            );
            random_in_range(lower, upper)
        },
        None => UNARMED_DAMAGE,
    }
}

/// Resolve one attack into a damage event, tagging it with the next global
/// attack-instance id.
pub fn resolve_attack(
    source: EntityReference,
    target: EntityReference,
    skill_ref: u32,
    strength: u16,
    weapon: Option<&RefItemData>,
    is_player: bool,
    counter: &mut AttackInstanceCounter,
) -> (r: DamageReceiveEvent)
    requires
        old(counter).spec_next() < u64::MAX,
        is_player ==> match weapon {
            Some(w) => {
                &&& spec_damage_bound(strength, w.physical_reinforce_lower, w.physical_attack_power_lower)
                    <= spec_damage_bound(
                    strength,
                    w.physical_reinforce_upper,
                    w.physical_attack_power_upper,
                )
                &&& spec_damage_bound(
                    strength,
                    w.physical_reinforce_upper,
                    w.physical_attack_power_upper,
                ) <= u32::MAX
            },
            None => true,
        },
    ensures
        r.source == source,
        r.target == target,
        r.attack.skill_ref == skill_ref,
        r.attack.instance == old(counter).spec_next(),
        final(counter).spec_next() == old(counter).spec_next() + 1,
        match weapon {
            Some(w) => is_player ==> spec_damage_bound(
                strength,
                w.physical_reinforce_lower,
                w.physical_attack_power_lower,
            ) <= r.amount <= spec_damage_bound(
                strength,
                w.physical_reinforce_upper,
                w.physical_attack_power_upper,
            ),
            None => is_player ==> r.amount == UNARMED_DAMAGE,
        },
        !is_player ==> r.amount == BASELINE_DAMAGE,
{
    let amount = resolve_damage_amount(strength, weapon, is_player);
    let instance = counter.next();
    DamageReceiveEvent {
        source,
        target,
        attack: AttackDefinition { skill_ref, instance },
        amount,
    }
}

} // verus!
