use vstd::prelude::*;
use crate::objects::{
    ObjectEquippable, ObjectItem, ObjectType, ObjectWeaponType, Race,
    spec_object_type_matches_race, spec_object_type_matches_slot,
};

verus! {

/// The intended wearer of an item.
#[derive(Copy, Clone, Eq, PartialEq, Structural, Debug)]
pub enum RefBiologicalType {
    Female,
    Male,
    Both,
    Pet1,
    Pet2,
    Pet3,
}

/// The rarity grade of a static item entry.
#[derive(Copy, Clone, Eq, PartialEq, Structural, Debug)]
pub enum RefItemRarity {
    General,
    Blue,
    Seal,
    SetItem,
    Roc,
    Legend,
}

/// The static (reference) data of one item kind. Attack power and reinforce
/// values are kept as the data files store them: reinforce bounds in
/// hundredths of a point, attack power in whole points.
#[derive(Copy, Clone, Eq, PartialEq, Structural, Debug)]
pub struct RefItemData {
    pub ref_id: u32,
    pub object_type: ObjectType,
    pub price: u64,
    pub max_stack_size: u16,
    pub range: u16,
    pub required_level: Option<u8>,
    pub biological_type: RefBiologicalType,
    pub physical_attack_power_lower: u32,
    pub physical_attack_power_upper: u32,
    pub magical_attack_power_lower: u32,
    pub magical_attack_power_upper: u32,
    pub critical: u32,
    /// In hundredths: a value of 150 means 1.5 reinforce points per strength.
    pub physical_reinforce_lower: u32,
    pub physical_reinforce_upper: u32,
    pub magical_reinforce_lower: u32,
    pub magical_reinforce_upper: u32,
    pub attack_rate: u32,
}

/// The dynamic payload of an item instance.
#[derive(Copy, Clone, Eq, PartialEq, Structural, Debug)]
pub enum ItemTypeData {
    Gold { amount: u32 },
    Equipment { upgrade_level: u8 },
    Expendable { stack_size: u16 },
}

impl ItemTypeData {
    /// The upgrade level of an equipment item, if it is one.
    pub open spec fn spec_upgrade_level(&self) -> Option<u8> {
        match *self {
            ItemTypeData::Equipment { upgrade_level } => Some(upgrade_level),
            _ => None,
        }
    }

    pub fn upgrade_level(&self) -> (r: Option<u8>)
        ensures
            r == self.spec_upgrade_level(),
    {
        match *self {
            ItemTypeData::Equipment { upgrade_level } => Some(upgrade_level),
            _ => None,
        }
    }
}

/// One item instance: its static reference data, an optional stat roll, and
/// the kind-specific payload.
#[derive(Copy, Clone, Eq, PartialEq, Structural, Debug)]
pub struct Item {
    pub reference: RefItemData,
    pub variance: Option<u64>,
    pub type_data: ItemTypeData,
}

impl Item {
    /// How many units this instance stacks to; non-expendables count as one.
    pub open spec fn spec_stack_size(&self) -> u16 {
        match self.type_data {
            ItemTypeData::Expendable { stack_size } => stack_size,
            _ => 1,
        }
    }

    pub fn stack_size(&self) -> (r: u16)
        ensures
            r == self.spec_stack_size(),
    {
        match self.type_data {
            ItemTypeData::Expendable { stack_size } => stack_size,
            _ => 1,
        }
    }
}

/// A weapon counts as one-handed unless its family is one of the fixed
/// two-handed families.
pub open spec fn spec_weapon_is_onehanded(kind: ObjectWeaponType) -> bool {
    !matches!(
        kind,
        ObjectWeaponType::Glavie
            | ObjectWeaponType::Spear
            | ObjectWeaponType::Axe
            | ObjectWeaponType::Dagger
            | ObjectWeaponType::TwoHandSword
            | ObjectWeaponType::Harp
            | ObjectWeaponType::Staff,
    )
}

/// Whether the item is a one-handed weapon; an error names what the item is
/// instead when it is no weapon at all.
pub fn weapon_is_onehanded(item: &Item) -> (r: Result<bool, &'static str>)
    ensures
        match item.reference.object_type {
            ObjectType::Item(ObjectItem::Equippable(ObjectEquippable::Weapon(kind))) => r
                == Ok::<bool, &'static str>(spec_weapon_is_onehanded(kind)),
            ObjectType::Item(ObjectItem::Equippable(_)) => r
                == Ok::<bool, &'static str>(false),
            _ => r.is_err(),
        },
{
    if let ObjectType::Item(item_type) = item.reference.object_type {
        match item_type {
            ObjectItem::Equippable(equipment) => {
                return Ok(
                    match equipment {
                        ObjectEquippable::Weapon(kind) => match kind {
                            ObjectWeaponType::Glavie
                            | ObjectWeaponType::Spear
                            | ObjectWeaponType::Axe
                            | ObjectWeaponType::Dagger
                            | ObjectWeaponType::TwoHandSword
                            | ObjectWeaponType::Harp
                            | ObjectWeaponType::Staff => false,
                            _ => true,
                        },
                        _ => false,
                    },
                );
            },
            _ => {
                return Err("Item is not equippable");
            },
        }
    }
    Err("Item is not an item")
}

/// The equip rule: an item fits an equipment slot when its object type
/// matches the slot's accepted category, its required level (if any) does not
/// exceed the actor's level, and its family matches the actor's race.
pub open spec fn spec_item_fits_into_equipment_slot(
    item: &Item,
    target: u8,
    level: u8,
    race: Race,
) -> bool {
    &&& spec_object_type_matches_slot(target, item.reference.object_type)
    &&& match item.reference.required_level {
        Some(required) => required <= level,
        None => true,
    }
    &&& spec_object_type_matches_race(race, item.reference.object_type)
}

pub fn item_fits_into_equipment_slot(item: &Item, target: u8, level: u8, race: Race) -> (r: bool)
    ensures
        r == spec_item_fits_into_equipment_slot(item, target, level, race),
{
    let type_matches = crate::objects::does_object_type_match_slot(
        target,
        item.reference.object_type,
    );
    let level_matches = match item.reference.required_level {
        Some(required) => required <= level,
        None => true,
    };
    let race_matches = crate::objects::does_object_type_match_race(
        race,
        item.reference.object_type,
    );
    type_matches && level_matches && race_matches
}

/// Gold pile sizes: up to this many coins drop as the small pile model.
pub const GOLD_SMALL_LIMIT: u32 = 1000;

/// Gold pile sizes: up to this many coins drop as the medium pile model.
pub const GOLD_MEDIUM_LIMIT: u32 = 5000;

pub const GOLD_SMALL_REF_ID: u32 = 1;

pub const GOLD_MEDIUM_REF_ID: u32 = 2;

pub const GOLD_LARGE_REF_ID: u32 = 3;

/// The static-data id of the ground object that stands for a pile of gold of
/// the given size.
pub open spec fn spec_gold_ref_id(amount: u32) -> u32 {
    if amount <= GOLD_SMALL_LIMIT {
        GOLD_SMALL_REF_ID
    } else if amount <= GOLD_MEDIUM_LIMIT {
        GOLD_MEDIUM_REF_ID
    } else {
        GOLD_LARGE_REF_ID
    }
}

pub fn get_gold_ref_id(amount: u32) -> (r: u32)
    ensures
        r == spec_gold_ref_id(amount),
{
    if amount <= GOLD_SMALL_LIMIT {
        GOLD_SMALL_REF_ID
    } else if amount <= GOLD_MEDIUM_LIMIT {
        GOLD_MEDIUM_REF_ID
    } else {
        GOLD_LARGE_REF_ID
    }
}

} // verus!
