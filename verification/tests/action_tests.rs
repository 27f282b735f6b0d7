use silkroad_core::action::{
    advance_action, damage_bound, damage_bound_u64, resolve_attack, resolve_damage_amount, Action,
    ActionDescription, ActionProgressState, ActionTarget, RefSkillData, SkillParam, SkillTimings,
    BASELINE_DAMAGE, UNARMED_DAMAGE,
};
use silkroad_core::entity::{AttackInstanceCounter, EntityReference, GameEntity, IdAllocator};
use silkroad_core::item::{Item, ItemTypeData, RefBiologicalType, RefItemData};
use silkroad_core::objects::{ObjectEquippable, ObjectItem, ObjectType, ObjectWeaponType};

fn skill(preparation: u32, cast: u32, execution: i32, teardown: u32) -> RefSkillData {
    RefSkillData {
        ref_id: 9,
        timings: SkillTimings {
            preparation_time: preparation,
            cast_time: cast,
            duration: execution,
            next_delay: teardown,
        },
        params: vec![SkillParam::Other(1), SkillParam::Attack],
    }
}

fn weapon() -> RefItemData {
    RefItemData {
        ref_id: 101,
        object_type: ObjectType::Item(ObjectItem::Equippable(ObjectEquippable::Weapon(
            ObjectWeaponType::Sword,
        ))),
        price: 0,
        max_stack_size: 1,
        range: 0,
        required_level: None,
        biological_type: RefBiologicalType::Both,
        physical_attack_power_lower: 10,
        physical_attack_power_upper: 20,
        magical_attack_power_lower: 0,
        magical_attack_power_upper: 0,
        critical: 0,
        // 1.50 and 2.50 reinforce points per strength, in hundredths
        physical_reinforce_lower: 150,
        physical_reinforce_upper: 250,
        magical_reinforce_lower: 0,
        magical_reinforce_upper: 0,
        attack_rate: 0,
    }
}

#[test]
fn stage_order_and_times() {
    let data = skill(500, 300, 100, 200);
    assert_eq!(
        ActionProgressState::Preparation.next(),
        Some(ActionProgressState::Casting)
    );
    assert_eq!(
        ActionProgressState::Casting.next(),
        Some(ActionProgressState::Execution)
    );
    assert_eq!(
        ActionProgressState::Execution.next(),
        Some(ActionProgressState::Teardown)
    );
    assert_eq!(ActionProgressState::Teardown.next(), None);
    assert_eq!(ActionProgressState::Preparation.get_time_for(&data), Some(500));
    assert_eq!(ActionProgressState::Casting.get_time_for(&data), Some(300));
    assert_eq!(ActionProgressState::Execution.get_time_for(&data), Some(100));
    assert_eq!(ActionProgressState::Teardown.get_time_for(&data), Some(200));
    let instant = skill(0, 0, 0, 0);
    assert_eq!(ActionProgressState::Casting.get_time_for(&instant), None);
}

#[test]
fn skill_attack_parameter_lookup() {
    assert!(skill(1, 1, 1, 1).has_attack());
    let plain = RefSkillData {
        ref_id: 1,
        timings: SkillTimings {
            preparation_time: 1,
            cast_time: 1,
            duration: 1,
            next_delay: 1,
        },
        params: vec![SkillParam::Other(3)],
    };
    assert!(!plain.has_attack());
}

#[test]
fn timed_skill_fires_once_at_execution_and_then_ends() {
    // preparation 500ms, cast 300ms, execution 100ms, teardown 200ms
    let mut action = Action::from(ActionDescription(skill(500, 300, 100, 200), ActionTarget::Entity(5)));
    let mut fired_at: Option<u32> = None;
    let mut removed_at: Option<u32> = None;
    let mut elapsed: u32 = 0;
    for _ in 0..20 {
        if removed_at.is_some() {
            break;
        }
        let outcome = advance_action(&mut action, 100);
        elapsed += 100;
        if outcome.fired {
            assert!(fired_at.is_none(), "the damage event fired twice");
            fired_at = Some(elapsed);
        }
        if outcome.removed {
            removed_at = Some(elapsed);
        }
    }
    // after 800ms of cumulative time exactly one damage event has fired
    assert_eq!(fired_at, Some(800));
    // after 1100ms the action no longer exists
    assert_eq!(removed_at, Some(1100));
}

#[test]
fn instant_stages_advance_in_one_evaluation() {
    // preparation only; every later stage is instant
    let mut action = Action::from(ActionDescription(skill(100, 0, 0, 0), ActionTarget::Entity(5)));
    let outcome = advance_action(&mut action, 100);
    assert!(outcome.fired);
    assert!(outcome.removed);
}

#[test]
fn oversized_tick_still_advances_one_stage() {
    let mut action = Action::from(ActionDescription(skill(500, 300, 100, 200), ActionTarget::Entity(5)));
    let outcome = advance_action(&mut action, 700);
    assert!(!outcome.fired);
    assert!(!outcome.removed);
    assert_eq!(action.state, ActionProgressState::Casting);
    assert_eq!(action.remaining_ms, 300);
}

#[test]
fn damage_bounds_scale_strength() {
    // 40 strength * 1.50 + 10 = 70; 40 * 2.50 + 20 = 120
    assert_eq!(damage_bound(40, 150, 10), 70);
    assert_eq!(damage_bound(40, 250, 20), 120);
    assert_eq!(damage_bound_u64(40, 150, 10), 70);
}

#[test]
fn damage_of_armed_player_stays_within_bounds() {
    let w = weapon();
    for _ in 0..50 {
        let dmg = resolve_damage_amount(40, Some(&w), true);
        assert!((70..=120).contains(&dmg));
    }
}

#[test]
fn damage_of_unarmed_player_and_monster_is_fixed() {
    assert_eq!(resolve_damage_amount(40, None, true), UNARMED_DAMAGE);
    assert_eq!(resolve_damage_amount(40, Some(&weapon()), false), BASELINE_DAMAGE);
}

#[test]
fn resolved_attacks_get_increasing_instance_ids() {
    let mut counter = AttackInstanceCounter::new();
    let source = EntityReference(1, GameEntity { ref_id: 1907, unique_id: 1 });
    let target = EntityReference(2, GameEntity { ref_id: 1933, unique_id: 2 });
    let first = resolve_attack(source, target, 9, 40, None, true, &mut counter);
    let second = resolve_attack(source, target, 9, 40, None, true, &mut counter);
    assert_eq!(first.attack.instance, 0);
    assert_eq!(second.attack.instance, 1);
    assert_eq!(first.amount, UNARMED_DAMAGE);
    assert_eq!(first.attack.skill_ref, 9);
    assert_eq!(first.target.1.unique_id, 2);
}

#[test]
fn id_allocator_hands_out_fresh_ids() {
    let mut allocator = IdAllocator::new();
    let a = allocator.allocate();
    let b = allocator.allocate();
    assert_eq!(a, 1);
    assert_eq!(b, 2);
}

#[test]
fn weapon_item_carries_reference() {
    let item = Item {
        reference: weapon(),
        variance: Some(7),
        type_data: ItemTypeData::Equipment { upgrade_level: 2 },
    };
    assert_eq!(item.stack_size(), 1);
    assert_eq!(item.type_data.upgrade_level(), Some(2));
}
