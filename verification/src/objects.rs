use vstd::prelude::*;

verus! {

/// The two playable races; race-specific item families may only be used by
/// actors of the matching race.
#[derive(Copy, Clone, Eq, PartialEq, Structural, Debug)]
pub enum Race {
    Chinese,
    European,
}

/// The race an equippable item family belongs to.
#[derive(Copy, Clone, Eq, PartialEq, Structural, Debug)]
pub enum ObjectRace {
    Chinese,
    European,
}

/// The armor family of a clothing piece; the first three families belong to
/// the Chinese race, the last three to the European race.
#[derive(Copy, Clone, Eq, PartialEq, Structural, Debug)]
pub enum ObjectClothingType {
    Garment,
    Protector,
    Armor,
    Robe,
    LightArmor,
    HeavyArmor,
}

/// The body part a clothing piece is worn on.
#[derive(Copy, Clone, Eq, PartialEq, Structural, Debug)]
pub enum ObjectClothingPart {
    Head,
    Shoulder,
    Body,
    Leg,
    Arm,
    Foot,
    Any,
}

#[derive(Copy, Clone, Eq, PartialEq, Structural, Debug)]
pub enum ObjectWeaponType {
    Sword,
    Blade,
    Spear,
    Glavie,
    Bow,
    OneHandSword,
    TwoHandSword,
    Axe,
    WarlockStaff,
    Staff,
    Crossbow,
    Dagger,
    Harp,
    ClericRod,
}

#[derive(Copy, Clone, Eq, PartialEq, Structural, Debug)]
pub enum ObjectJewelryType {
    Earring,
    Necklace,
    Ring,
}

#[derive(Copy, Clone, Eq, PartialEq, Structural, Debug)]
pub enum ObjectConsumableAmmo {
    Arrows,
    Bolts,
}

/// A consumable item kind; only ammunition interacts with equipment slots.
#[derive(Copy, Clone, Eq, PartialEq, Structural, Debug)]
pub enum ObjectConsumable {
    Ammo(ObjectConsumableAmmo),
    Recovery,
}

/// An equippable item kind, carrying the data the equip rules read.
#[derive(Copy, Clone, Eq, PartialEq, Structural, Debug)]
pub enum ObjectEquippable {
    Clothing(ObjectClothingType, ObjectClothingPart),
    Shield(ObjectRace),
    Jewelry(ObjectRace, ObjectJewelryType),
    Weapon(ObjectWeaponType),
}

#[derive(Copy, Clone, Eq, PartialEq, Structural, Debug)]
pub enum ObjectItem {
    Equippable(ObjectEquippable),
    Consumable(ObjectConsumable),
    Gold,
}

/// The decoded object type of a static-data entry.
#[derive(Copy, Clone, Eq, PartialEq, Structural, Debug)]
pub enum ObjectType {
    Item(ObjectItem),
    Entity,
}

/// The fixed type-to-slot table: which equipment slot index accepts an item
/// of the given object type.
pub open spec fn spec_object_type_matches_slot(slot: u8, obj_type: ObjectType) -> bool {
    match obj_type {
        ObjectType::Item(item) => match item {
            ObjectItem::Equippable(equipment) => match equipment {
                ObjectEquippable::Clothing(_, part) => match part {
                    ObjectClothingPart::Head => slot == 0,
                    ObjectClothingPart::Shoulder => slot == 1,
                    ObjectClothingPart::Body => slot == 2,
                    ObjectClothingPart::Leg => slot == 4,
                    ObjectClothingPart::Arm => slot == 3,
                    ObjectClothingPart::Foot => slot == 5,
                    ObjectClothingPart::Any => false,
                },
                ObjectEquippable::Shield(_) => slot == 7,
                ObjectEquippable::Jewelry(_, kind) => match kind {
                    ObjectJewelryType::Earring => slot == 8,
                    ObjectJewelryType::Necklace => slot == 9,
                    ObjectJewelryType::Ring => slot == 11 || slot == 10,
                },
                ObjectEquippable::Weapon(_) => slot == 6,
            },
            ObjectItem::Consumable(consumable) => match consumable {
                ObjectConsumable::Ammo(_) => slot == 7,
                ObjectConsumable::Recovery => false,
            },
            ObjectItem::Gold => false,
        },
        ObjectType::Entity => false,
    }
}

pub fn does_object_type_match_slot(slot: u8, obj_type: ObjectType) -> (r: bool)
    ensures
        r == spec_object_type_matches_slot(slot, obj_type),
{
    match obj_type {
        ObjectType::Item(item) => match item {
            ObjectItem::Equippable(equipment) => match equipment {
                ObjectEquippable::Clothing(_, part) => match part {
                    ObjectClothingPart::Head => slot == 0,
                    ObjectClothingPart::Shoulder => slot == 1,
                    ObjectClothingPart::Body => slot == 2,
                    ObjectClothingPart::Leg => slot == 4,
                    ObjectClothingPart::Arm => slot == 3,
                    ObjectClothingPart::Foot => slot == 5,
                    ObjectClothingPart::Any => false,
                },
                ObjectEquippable::Shield(_) => slot == 7,
                ObjectEquippable::Jewelry(_, kind) => match kind {
                    ObjectJewelryType::Earring => slot == 8,
                    ObjectJewelryType::Necklace => slot == 9,
                    ObjectJewelryType::Ring => slot == 11 || slot == 10,
                },
                ObjectEquippable::Weapon(_) => slot == 6,
            },
            ObjectItem::Consumable(consumable) => match consumable {
                ObjectConsumable::Ammo(_) => slot == 7,
                ObjectConsumable::Recovery => false,
            },
            ObjectItem::Gold => false,
        },
        ObjectType::Entity => false,
    }
}

/// The race a weapon family belongs to, if any.
pub open spec fn spec_weapon_race(kind: ObjectWeaponType) -> Option<Race> {
    match kind {
        ObjectWeaponType::Sword
        | ObjectWeaponType::Blade
        | ObjectWeaponType::Spear
        | ObjectWeaponType::Glavie
        | ObjectWeaponType::Bow => Some(Race::Chinese),
        ObjectWeaponType::OneHandSword
        | ObjectWeaponType::TwoHandSword
        | ObjectWeaponType::Axe
        | ObjectWeaponType::WarlockStaff
        | ObjectWeaponType::Staff
        | ObjectWeaponType::Crossbow
        | ObjectWeaponType::Dagger
        | ObjectWeaponType::Harp
        | ObjectWeaponType::ClericRod => Some(Race::European),
    }
}

/// The fixed type-to-race table: whether an actor of `user_race` may use an
/// item of the given object type.
pub open spec fn spec_object_type_matches_race(user_race: Race, obj_type: ObjectType) -> bool {
    match obj_type {
        ObjectType::Item(item) => match item {
            ObjectItem::Equippable(equipment) => match equipment {
                ObjectEquippable::Clothing(kind, _) => match kind {
                    ObjectClothingType::Garment
                    | ObjectClothingType::Protector
                    | ObjectClothingType::Armor => user_race == Race::Chinese,
                    ObjectClothingType::Robe
                    | ObjectClothingType::LightArmor
                    | ObjectClothingType::HeavyArmor => user_race == Race::European,
                },
                ObjectEquippable::Shield(race) | ObjectEquippable::Jewelry(race, _) => match race {
                    ObjectRace::Chinese => user_race == Race::Chinese,
                    ObjectRace::European => user_race == Race::European,
                },
                ObjectEquippable::Weapon(kind) => spec_weapon_race(kind) == Some(user_race),
            },
            ObjectItem::Consumable(consumable) => match consumable {
                ObjectConsumable::Ammo(kind) => match kind {
                    ObjectConsumableAmmo::Arrows => user_race == Race::Chinese,
                    ObjectConsumableAmmo::Bolts => user_race == Race::European,
                },
                ObjectConsumable::Recovery => false,
            },
            ObjectItem::Gold => false,
        },
        ObjectType::Entity => false,
    }
}

pub fn does_object_type_match_race(user_race: Race, obj_type: ObjectType) -> (r: bool)
    ensures
        r == spec_object_type_matches_race(user_race, obj_type),
{
    match obj_type {
        ObjectType::Item(item) => match item {
            ObjectItem::Equippable(equipment) => match equipment {
                ObjectEquippable::Clothing(kind, _) => match kind {
                    ObjectClothingType::Garment
                    | ObjectClothingType::Protector
                    | ObjectClothingType::Armor => user_race == Race::Chinese,
                    ObjectClothingType::Robe
                    | ObjectClothingType::LightArmor
                    | ObjectClothingType::HeavyArmor => user_race == Race::European,
                },
                ObjectEquippable::Shield(race) | ObjectEquippable::Jewelry(race, _) => match race {
                    ObjectRace::Chinese => user_race == Race::Chinese,
                    ObjectRace::European => user_race == Race::European,
                },
                ObjectEquippable::Weapon(kind) => match kind {
                    ObjectWeaponType::Sword
                    | ObjectWeaponType::Blade
                    | ObjectWeaponType::Spear
                    | ObjectWeaponType::Glavie
                    | ObjectWeaponType::Bow => user_race == Race::Chinese,
                    ObjectWeaponType::OneHandSword
                    | ObjectWeaponType::TwoHandSword
                    | ObjectWeaponType::Axe
                    | ObjectWeaponType::WarlockStaff
                    | ObjectWeaponType::Staff
                    | ObjectWeaponType::Crossbow
                    | ObjectWeaponType::Dagger
                    | ObjectWeaponType::Harp
                    | ObjectWeaponType::ClericRod => user_race == Race::European,
                },
            },
            ObjectItem::Consumable(consumable) => match consumable {
                ObjectConsumable::Ammo(kind) => match kind {
                    ObjectConsumableAmmo::Arrows => user_race == Race::Chinese,
                    ObjectConsumableAmmo::Bolts => user_race == Race::European,
                },
                ObjectConsumable::Recovery => false,
            },
            ObjectItem::Gold => false,
        },
        ObjectType::Entity => false,
    }
}

} // verus!
