use vstd::prelude::*;

verus! {

/// A stored character, as the persistence layer hands it over. Coordinates
/// are in tenths of a unit, times are Unix seconds.
#[derive(Clone, Eq, PartialEq, Debug)]
pub struct CharacterData {
    pub id: i32,
    pub user_id: i32,
    pub server_id: i32,
    pub charname: String,
    pub character_type: i32,
    pub scale: i16,
    pub level: i16,
    pub max_level: i16,
    pub exp: i64,
    pub sp: i32,
    pub sp_exp: i32,
    pub strength: i16,
    pub intelligence: i16,
    pub stat_points: i16,
    pub current_hp: i32,
    pub current_mp: i32,
    pub deletion_end: Option<i64>,
    pub x: i32,
    pub y: i32,
    pub z: i32,
    pub rotation: i16,
    pub region: i16,
    pub berserk_points: i16,
    pub gold: i64,
    pub beginner_mark: bool,
    pub gm: bool,
    pub last_logout: Option<i64>,
}

/// A stored item of a character.
#[derive(Copy, Clone, Eq, PartialEq, Structural, Debug)]
pub struct CharacterItem {
    pub id: i32,
    pub character_id: i32,
    pub item_obj_id: i32,
    pub upgrade_level: i16,
    pub variance: Option<i64>,
    pub slot: i16,
    pub amount: i16,
}

/// A stored mastery of a character.
#[derive(Copy, Clone, Eq, PartialEq, Structural, Debug)]
pub struct CharacterMastery {}

/// A character together with its items.
#[derive(Clone, Eq, PartialEq, Debug)]
pub struct Character {
    pub character_data: CharacterData,
    pub items: Vec<CharacterItem>,
}

/// The items of `items` that belong to the given character, in their
/// stored order.
pub open spec fn spec_items_of(items: Seq<CharacterItem>, character_id: i32) -> Seq<CharacterItem>
    decreases items.len(),
{
    if items.len() == 0 {
        Seq::<CharacterItem>::empty()
    } else {
        let head = if items[0].character_id == character_id {
            seq![items[0]]
        } else {
            Seq::<CharacterItem>::empty()
        };
        head + spec_items_of(items.drop_first(), character_id)
    }
}

/// Group a flat item list by owning character: each requested character gets
/// exactly its items, in their stored order.
pub fn group_items_by_character(items: &Vec<CharacterItem>, character_ids: &Vec<i32>) -> (r: Vec<
    (i32, Vec<CharacterItem>),
>)
    ensures
        r@.len() == character_ids@.len(),
        forall|i: int|
            0 <= i < r@.len() ==> (#[trigger] r@[i]).0 == character_ids@[i] && r@[i].1@
                =~= spec_items_of(items@, character_ids@[i]),
{
    let mut r: Vec<(i32, Vec<CharacterItem>)> = Vec::new();
    let mut i: usize = 0;
    while i < character_ids.len()
        invariant
            i <= character_ids@.len(),
            r@.len() == i,
            forall|k: int|
                0 <= k < i ==> (#[trigger] r@[k]).0 == character_ids@[k] && r@[k].1@
                    =~= spec_items_of(items@, character_ids@[k]),
        decreases character_ids@.len() - i,
    {
        let key = character_ids[i];
        let mut group: Vec<CharacterItem> = Vec::new();
        let mut j: usize = 0;
        proof {
            assert(items@.skip(0) =~= items@);
        }
        while j < items.len()
            invariant
                j <= items@.len(),
                group@ + spec_items_of(items@.skip(j as int), key) =~= spec_items_of(items@, key),
            decreases items@.len() - j,
        {
            proof {
                assert(items@.skip(j as int)[0] == items@[j as int]);
                assert(items@.skip(j as int).drop_first() =~= items@.skip(j as int + 1));
            }
            if items[j].character_id == key {
                group.push(items[j]);
            }
            j = j + 1;
        }
        proof {
            assert(items@.skip(j as int).len() == 0);
            assert(spec_items_of(items@.skip(j as int), key) =~= Seq::<CharacterItem>::empty());
        }
        r.push((key, group));
        i = i + 1;
    }
    r
}

} // verus!
