use vstd::prelude::*;
use crate::chardata::{Character, CharacterData, CharacterItem};
use crate::entity::GameEntity;
use crate::messages::{
    CharacterJoinResponse, CharacterJoinResult, CharacterListAction, CharacterListContent,
    CharacterListEntry, CharacterListEquippedItem, CharacterListError, CharacterListRequestAction,
    CharacterListResponse, CharacterListResult, CharacterSpawn, ClientPacket, ServerPacket,
};
use crate::position::Position;
use crate::protocol::{
    ActionState, AliveState, BodyState, EntityState, InventoryItemBindingData,
    InventoryItemContentData, InventoryItemData, JobType,
};
use crate::time::spec_wire_time;

verus! {

/// The inventory size every player starts with.
pub const PLAYER_INVENTORY_SIZE: u8 = 45;

/// The visibility radius every player starts with, in tenths of a unit.
pub const PLAYER_VISIBILITY_RADIUS_TENTHS: u32 = 2000;

/// The per-connection state of the character-select flow: the loaded list,
/// and which asynchronous persistence requests are in flight. A system that
/// finds a request still pending is a no-op for that connection that tick.
#[derive(Clone, Eq, PartialEq, Debug)]
pub struct CharacterSelect {
    pub characters: Option<Vec<Character>>,
    pub character_receiver: bool,
    pub character_name_check: bool,
    pub character_create: bool,
}

impl CharacterSelect {
    pub fn new() -> (r: CharacterSelect)
        ensures
            r.characters is None,
            !r.character_receiver,
            !r.character_name_check,
            !r.character_create,
    {
        CharacterSelect {
            characters: None,
            character_receiver: false,
            character_name_check: false,
            character_create: false,
        }
    }
}

/// An asynchronous persistence request the character-select flow asks its
/// surroundings to start; the result comes back through the poll handlers.
#[derive(Clone, Eq, PartialEq, Debug)]
pub enum CharselectTask {
    CreateCharacter { character: Character },
    LoadCharacters,
    CheckName { character_name: String },
}

/// The row of the character-select list for one stored character.
pub open spec fn spec_entry_matches(entry: CharacterListEntry, c: Character) -> bool {
    let data = c.character_data;
    &&& entry.ref_id == data.character_type as u32
    &&& entry.name@ == data.charname@
    &&& entry.unknown_1 == 0
    &&& entry.unknown_2 == 0
    &&& entry.scale == data.scale as u8
    &&& entry.level == data.level as u8
    &&& entry.exp == data.exp as u64
    &&& entry.sp == data.sp as u32
    &&& entry.strength == data.strength as u16
    &&& entry.intelligence == data.intelligence as u16
    &&& entry.stat_points == data.stat_points as u16
    &&& entry.hp == data.current_hp as u32
    &&& entry.mp == data.current_mp as u32
    &&& entry.remaining_deletion_time is None
    &&& entry.region == data.region as u16
    &&& entry.last_logout == match data.last_logout {
        Some(t) => spec_wire_time(t),
        None => 0u32,
    }
    &&& entry.guild_member_class == 0
    &&& entry.guild_rename_required is None
    &&& entry.academy_member_class == 0
    &&& entry.equipped_items@.len() == c.items@.len()
    &&& forall|i: int|
        0 <= i < c.items@.len() ==> entry.equipped_items@[i] == (CharacterListEquippedItem {
            ref_id: c.items@[i].item_obj_id as u32,
            upgrade_level: c.items@[i].upgrade_level as u8,
        })
    &&& entry.avatar_items@.len() == 0
}

pub fn from_item(item: &CharacterItem) -> (r: CharacterListEquippedItem)
    ensures
        r == (CharacterListEquippedItem {
            ref_id: item.item_obj_id as u32,
            upgrade_level: item.upgrade_level as u8,
        }),
{
    CharacterListEquippedItem {
        ref_id: #[verifier::truncate] (item.item_obj_id as u32),
        upgrade_level: #[verifier::truncate] (item.upgrade_level as u8),
    }
}

pub fn from_character(character: &Character) -> (r: CharacterListEntry)
    ensures
        spec_entry_matches(r, *character),
{
    let data = &character.character_data;
    let mut equipped_items: Vec<CharacterListEquippedItem> = Vec::new();
    let mut i: usize = 0;
    while i < character.items.len()
        invariant
            i <= character.items@.len(),
            equipped_items@.len() == i,
            forall|k: int|
                0 <= k < i ==> equipped_items@[k] == (CharacterListEquippedItem {
                    ref_id: character.items@[k].item_obj_id as u32,
                    upgrade_level: character.items@[k].upgrade_level as u8,
                }),
        decreases character.items@.len() - i,
    {
        let entry = from_item(&character.items[i]);
        equipped_items.push(entry);
        i = i + 1;
    }
    let last_logout = match data.last_logout {
        Some(t) => crate::time::as_wire_time(t),
        None => 0,
    };
    CharacterListEntry {
        ref_id: #[verifier::truncate] (data.character_type as u32),
        name: data.charname.clone(),
        unknown_1: 0,
        unknown_2: 0,
        scale: #[verifier::truncate] (data.scale as u8),
        level: #[verifier::truncate] (data.level as u8),
        exp: #[verifier::truncate] (data.exp as u64),
        sp: #[verifier::truncate] (data.sp as u32),
        strength: #[verifier::truncate] (data.strength as u16),
        intelligence: #[verifier::truncate] (data.intelligence as u16),
        stat_points: #[verifier::truncate] (data.stat_points as u16),
        hp: #[verifier::truncate] (data.current_hp as u32),
        mp: #[verifier::truncate] (data.current_mp as u32),
        remaining_deletion_time: None,
        region: #[verifier::truncate] (data.region as u16),
        last_logout,
        guild_member_class: 0,
        guild_rename_required: None,
        academy_member_class: 0,
        equipped_items,
        avatar_items: Vec::new(),
    }
}

/// The one message the loaded character list is answered with.
pub fn send_character_list(character_list: &Vec<Character>) -> (r: Vec<ServerPacket>)
    ensures
        r@.len() == 1,
        ({
            &&& r@[0] matches ServerPacket::CharacterListResponse(response)
            &&& response.action == CharacterListAction::List
            &&& response.result matches CharacterListResult::Listed { content }
            &&& content matches CharacterListContent::Characters { characters, job }
            &&& job == 0
            &&& characters@.len() == character_list@.len()
            &&& forall|i: int|
                0 <= i < character_list@.len() ==> spec_entry_matches(
                    #[trigger] characters@[i],
                    character_list@[i],
                )
        }),
{
    let mut characters: Vec<CharacterListEntry> = Vec::new();
    let mut i: usize = 0;
    while i < character_list.len()
        invariant
            i <= character_list@.len(),
            characters@.len() == i,
            forall|k: int|
                0 <= k < i ==> spec_entry_matches(
                    #[trigger] characters@[k],
                    character_list@[k],
                ),
        decreases character_list@.len() - i,
    {
        let entry = from_character(&character_list[i]);
        characters.push(entry);
        i = i + 1;
    }
    let response = CharacterListResponse::new(
        CharacterListAction::List,
        CharacterListResult::ok(CharacterListContent::characters(characters, 0)),
    );
    let mut r: Vec<ServerPacket> = Vec::new();
    r.push(ServerPacket::CharacterListResponse(response));
    r
}

pub fn send_job_spread(hunters: u8, thieves: u8) -> (r: ServerPacket)
    ensures
        r == ServerPacket::CharacterListResponse(
            CharacterListResponse {
                action: CharacterListAction::ShowJobSpread,
                result: CharacterListResult::Listed {
                    content: CharacterListContent::JobSpread { hunters, thieves },
                },
            },
        ),
{
    ServerPacket::CharacterListResponse(
        CharacterListResponse::new(
            CharacterListAction::ShowJobSpread,
            CharacterListResult::ok(CharacterListContent::jobspread(hunters, thieves)),
        ),
    )
}

/// The spawn payload of one stored item.
pub open spec fn spec_inventory_item_matches(entry: InventoryItemData, item: CharacterItem) -> bool {
    &&& entry.slot == item.slot as u8
    &&& entry.rent_data == 0
    &&& entry.item_id == item.item_obj_id as u32
    &&& entry.content_data matches InventoryItemContentData::Equipment {
        plus_level,
        variance,
        durability,
        magic,
        bindings_1,
        bindings_2,
        bindings_3,
        bindings_4,
    }
    &&& entry.content_data matches InventoryItemContentData::Equipment {
        plus_level,
        variance,
        durability,
        ..
    } && plus_level == item.upgrade_level as u8 && variance == match item.variance {
        Some(v) => v as u64,
        None => 0u64,
    } && durability == 1
}

/// The three messages that spawn the player's own character: the spawn
/// envelope around the full payload built from the stored character.
pub fn send_spawn(
    entity: &GameEntity,
    data: &CharacterData,
    items: &Vec<CharacterItem>,
    position: &Position,
    max_level: u8,
    now_wire_time: u32,
) -> (r: Vec<ServerPacket>)
    ensures
        r@.len() == 3,
        r@[0] == ServerPacket::CharacterSpawnStart,
        r@[2] == ServerPacket::CharacterSpawnEnd,
        ({
            &&& r@[1] matches ServerPacket::CharacterSpawn(cs)
            &&& cs.time == now_wire_time
            &&& cs.ref_id == entity.ref_id
            &&& cs.scale == data.scale as u8
            &&& cs.level == data.level as u8
            &&& cs.max_level == data.max_level as u8
            &&& cs.exp == data.exp as u64
            &&& cs.sp_exp == data.sp_exp as u32
            &&& cs.gold == data.gold as u64
            &&& cs.sp == data.sp as u32
            &&& cs.stat_points == data.stat_points as u16
            &&& cs.berserk_points == data.berserk_points as u8
            &&& cs.current_hp == data.current_hp as u32
            &&& cs.current_mp == data.current_mp as u32
            &&& cs.beginner_mark == data.beginner_mark
            &&& cs.max_level_cap == max_level
            &&& cs.inventory_size == PLAYER_INVENTORY_SIZE
            &&& cs.inventory_items@.len() == items@.len()
            &&& forall|i: int|
                0 <= i < items@.len() ==> spec_inventory_item_matches(
                    #[trigger] cs.inventory_items@[i],
                    items@[i],
                )
            &&& cs.unique_id == entity.unique_id
            &&& cs.position == (crate::messages::ProtocolLocation {
                region: position.region.spec_id(),
                x_tenths: position.x_tenths,
                y_tenths: position.y_tenths,
                z_tenths: position.z_tenths,
            })
            &&& cs.heading == position.heading
            &&& cs.entity_state.alive == AliveState::Spawning
            &&& cs.entity_state.action_state == ActionState::Idle
            &&& cs.entity_state.body_state == BodyState::Normal
            &&& cs.name@ == data.charname@
            &&& cs.job == JobType::NoJob
            &&& cs.gm == data.gm
        }),
{
    let mut inventory_items: Vec<InventoryItemData> = Vec::new();
    let mut i: usize = 0;
    while i < items.len()
        invariant
            i <= items@.len(),
            inventory_items@.len() == i,
            forall|k: int|
                0 <= k < i ==> spec_inventory_item_matches(
                    #[trigger] inventory_items@[k],
                    items@[k],
                ),
        decreases items@.len() - i,
    {
        let item = &items[i];
        let variance = match item.variance {
            Some(v) => #[verifier::truncate] (v as u64),
            None => 0,
        };
        inventory_items.push(
            InventoryItemData {
                slot: #[verifier::truncate] (item.slot as u8),
                rent_data: 0,
                item_id: #[verifier::truncate] (item.item_obj_id as u32),
                content_data: InventoryItemContentData::Equipment {
                    plus_level: #[verifier::truncate] (item.upgrade_level as u8),
                    variance,
                    durability: 1,
                    magic: Vec::new(),
                    bindings_1: InventoryItemBindingData::new(1, 0),
                    bindings_2: InventoryItemBindingData::new(2, 0),
                    bindings_3: InventoryItemBindingData::new(3, 0),
                    bindings_4: InventoryItemBindingData::new(4, 0),
                },
            },
        );
        i = i + 1;
    }
    let entity_state = EntityState {
        alive: AliveState::Spawning,
        unknown1: 0,
        action_state: ActionState::Idle,
        body_state: BodyState::Normal,
        unknown2: 0,
        walk_speed_tenths: 160,
        run_speed_tenths: 500,
        berserk_speed_tenths: 1000,
        active_buffs: Vec::new(),
    };
    let spawn = CharacterSpawn {
        time: now_wire_time,
        ref_id: entity.ref_id,
        scale: #[verifier::truncate] (data.scale as u8),
        level: #[verifier::truncate] (data.level as u8),
        max_level: #[verifier::truncate] (data.max_level as u8),
        exp: #[verifier::truncate] (data.exp as u64),
        sp_exp: #[verifier::truncate] (data.sp_exp as u32),
        gold: #[verifier::truncate] (data.gold as u64),
        sp: #[verifier::truncate] (data.sp as u32),
        stat_points: #[verifier::truncate] (data.stat_points as u16),
        berserk_points: #[verifier::truncate] (data.berserk_points as u8),
        current_hp: #[verifier::truncate] (data.current_hp as u32),
        current_mp: #[verifier::truncate] (data.current_mp as u32),
        beginner_mark: data.beginner_mark,
        max_level_cap: max_level,
        inventory_size: PLAYER_INVENTORY_SIZE,
        inventory_items,
        unique_id: entity.unique_id,
        position: position.as_protocol(),
        heading: position.heading,
        entity_state,
        name: data.charname.clone(),
        job: JobType::NoJob,
        gm: data.gm,
    };
    let mut r: Vec<ServerPacket> = Vec::new();
    r.push(ServerPacket::CharacterSpawnStart);
    r.push(ServerPacket::CharacterSpawn(spawn));
    r.push(ServerPacket::CharacterSpawnEnd);
    r
}

/// A freshly created character: level one, the fixed starting stats, gold
/// and spot, and the four chosen starting items in their equipment slots.
pub fn create_character_from(
    user_id: i32,
    server_id: u16,
    character_name: String,
    ref_id: u32,
    scale: u8,
    chest: u32,
    pants: u32,
    boots: u32,
    weapon: u32,
) -> (r: Character)
    ensures
        r.character_data == (CharacterData {
            id: 0i32,
            user_id,
            server_id: server_id as i32,
            charname: r.character_data.charname,
            character_type: ref_id as i32,
            scale: scale as i16,
            level: 1i16,
            max_level: 1i16,
            exp: 0i64,
            sp: 0i32,
            sp_exp: 0i32,
            strength: 20i16,
            intelligence: 20i16,
            stat_points: 0i16,
            current_hp: 200i32,
            current_mp: 200i32,
            deletion_end: None,
            x: 7390i32,
            y: 375i32,
            z: 17570i32,
            rotation: 0i16,
            region: 24998i16,
            berserk_points: 0i16,
            gold: 5000000i64,
            beginner_mark: true,
            gm: false,
            last_logout: None,
        }),
        r.character_data.charname@ == character_name@,
        r.items@.len() == 4,
        r.items@[0] == spec_starting_item(chest, 1),
        r.items@[1] == spec_starting_item(pants, 4),
        r.items@[2] == spec_starting_item(boots, 5),
        r.items@[3] == spec_starting_item(weapon, 6),
{
    let character = CharacterData {
        id: 0,
        user_id,
        server_id: server_id as i32,
        charname: character_name,
        character_type: #[verifier::truncate] (ref_id as i32),
        scale: scale as i16,
        level: 1,
        max_level: 1,
        exp: 0,
        sp: 0,
        sp_exp: 0,
        strength: 20,
        intelligence: 20,
        stat_points: 0,
        current_hp: 200,
        current_mp: 200,
        deletion_end: None,
        x: 7390,
        y: 375,
        z: 17570,
        rotation: 0,
        region: 24998,
        berserk_points: 0,
        gold: 5000000,
        beginner_mark: true,
        gm: false,
        last_logout: None,
    };
    let mut items: Vec<CharacterItem> = Vec::new();
    items.push(starting_item(chest, 1));
    items.push(starting_item(pants, 4));
    items.push(starting_item(boots, 5));
    items.push(starting_item(weapon, 6));
    Character { character_data: character, items }
}

/// One starting item in its equipment slot.
pub open spec fn spec_starting_item(obj_id: u32, slot: i16) -> CharacterItem {
    CharacterItem {
        id: 0i32,
        character_id: 0i32,
        item_obj_id: obj_id as i32,
        upgrade_level: 0i16,
        variance: None,
        slot,
        amount: 1i16,
    }
}

fn starting_item(obj_id: u32, slot: i16) -> (r: CharacterItem)
    ensures
        r == spec_starting_item(obj_id, slot),
{
    CharacterItem {
        id: 0,
        character_id: 0,
        item_obj_id: #[verifier::truncate] (obj_id as i32),
        upgrade_level: 0,
        variance: None,
        slot,
        amount: 1,
    }
}

/// Find the first stored character with the given name.
fn find_character_index(characters: &Vec<Character>, name: &String) -> (r: Option<usize>)
    ensures
        match r {
            Some(i) => {
                &&& i < characters@.len()
                &&& characters@[i as int].character_data.charname@ == name@
                &&& forall|j: int|
                    0 <= j < i ==> (#[trigger] characters@[j]).character_data.charname@ != name@
            },
            None => forall|j: int|
                0 <= j < characters@.len() ==> (
                #[trigger] characters@[j]).character_data.charname@ != name@,
        },
{
    let mut i: usize = 0;
    while i < characters.len()
        invariant
            i <= characters@.len(),
            forall|j: int|
                0 <= j < i ==> (#[trigger] characters@[j]).character_data.charname@ != name@,
        decreases characters@.len() - i,
    {
        if characters[i].character_data.charname.eq(name) {
            return Some(i);
        }
        i = i + 1;
    }
    None
}

/// What one character-select packet produced: replies, persistence requests
/// to start, and — on a successful join — the character to enter the world
/// as.
pub struct CharselectPacketOutcome {
    pub messages: Vec<ServerPacket>,
    pub tasks: Vec<CharselectTask>,
    /// On a successful join: the index of the chosen character in the loaded
    /// list.
    pub join: Option<usize>,
}

/// Process one character-select packet.
///
/// List, create and name-check requests start an asynchronous persistence
/// task each, at most one of each kind in flight; the job-spread request is
/// answered at once. A join picks the named character from the loaded list;
/// a join before the list is loaded is refused, and a join naming an unknown
/// character is dropped as malformed. Every other packet is ignored here.
pub fn handle_charselect_packet(
    state: &mut CharacterSelect,
    packet: &ClientPacket,
    user_id: i32,
    server_id: u16,
    hunter_percentage: u8,
    thief_percentage: u8,
) -> (r: CharselectPacketOutcome)
    ensures
        match *packet {
            ClientPacket::CharacterListRequest { ref action } => match *action {
                CharacterListRequestAction::List => {
                    if old(state).character_receiver {
                        *final(state) == *old(state) && r.tasks@.len() == 0 && r.messages@.len()
                            == 0 && r.join is None
                    } else {
                        &&& *final(state) == (CharacterSelect {
                            character_receiver: true,
                            ..*old(state)
                        })
                        &&& r.tasks@ =~= seq![CharselectTask::LoadCharacters]
                        &&& r.messages@.len() == 0
                        &&& r.join is None
                    }
                },
                CharacterListRequestAction::ShowJobSpread => {
                    &&& *final(state) == *old(state)
                    &&& r.tasks@.len() == 0
                    &&& r.join is None
                    &&& r.messages@ =~= seq![
                        ServerPacket::CharacterListResponse(
                            CharacterListResponse {
                                action: CharacterListAction::ShowJobSpread,
                                result: CharacterListResult::Listed {
                                    content: CharacterListContent::JobSpread {
                                        hunters: hunter_percentage,
                                        thieves: thief_percentage,
                                    },
                                },
                            },
                        ),
                    ]
                },
                CharacterListRequestAction::Create { ref character_name, ref_id, .. } => {
                    &&& *final(state) == (CharacterSelect {
                        character_create: true,
                        ..*old(state)
                    })
                    &&& r.tasks@.len() == 1
                    &&& r.tasks@[0] matches CharselectTask::CreateCharacter { character }
                    &&& r.tasks@[0] matches CharselectTask::CreateCharacter { character } && ({
                        &&& character.character_data.charname@ == character_name@
                        &&& character.character_data.user_id == user_id
                        &&& character.character_data.character_type == ref_id as i32
                        &&& character.character_data.level == 1
                        &&& character.items@.len() == 4
                    })
                    &&& r.join is None
                    &&& r.messages@.len() == 0
                },
                CharacterListRequestAction::CheckName { ref character_name } => {
                    if old(state).character_name_check {
                        *final(state) == *old(state) && r.tasks@.len() == 0 && r.messages@.len()
                            == 0 && r.join is None
                    } else {
                        &&& *final(state) == (CharacterSelect {
                            character_name_check: true,
                            ..*old(state)
                        })
                        &&& r.tasks@.len() == 1
                        &&& r.tasks@[0] matches CharselectTask::CheckName { character_name: name }
                            && name@ == character_name@
                        &&& r.messages@.len() == 0
                        &&& r.join is None
                    }
                },
                _ => *final(state) == *old(state) && r.tasks@.len() == 0 && r.messages@.len() == 0
                    && r.join is None,
            },
            ClientPacket::CharacterJoinRequest { ref character_name } => {
                &&& *final(state) == *old(state)
                &&& r.tasks@.len() == 0
                &&& match old(state).characters {
                    Some(ref characters) => {
                        &&& match r.join {
                            Some(i) => {
                                &&& i < characters@.len()
                                &&& characters@[i as int].character_data.charname@
                                    == character_name@
                                &&& r.messages@ =~= seq![
                                    ServerPacket::CharacterJoinResponse(
                                        CharacterJoinResponse {
                                            result: CharacterJoinResult::Success,
                                        },
                                    ),
                                ]
                            },
                            None => {
                                &&& forall|j: int|
                                    0 <= j < characters@.len() ==> (
                                    #[trigger] characters@[j]).character_data.charname@
                                        != character_name@
                                &&& r.messages@.len() == 0
                            },
                        }
                    },
                    None => {
                        &&& r.join is None
                        &&& r.messages@ =~= seq![
                            ServerPacket::CharacterJoinResponse(
                                CharacterJoinResponse {
                                    result: CharacterJoinResult::Failure {
                                        error: CharacterListError::ReachedCapacity,
                                    },
                                },
                            ),
                        ]
                    },
                }
            },
            _ => *final(state) == *old(state) && r.tasks@.len() == 0 && r.messages@.len() == 0
                && r.join is None,
        },
{
    let mut messages: Vec<ServerPacket> = Vec::new();
    let mut tasks: Vec<CharselectTask> = Vec::new();
    let mut join: Option<usize> = None;
    match packet {
        ClientPacket::CharacterListRequest { action } => match action {
            CharacterListRequestAction::Create {
                character_name,
                ref_id,
                scale,
                chest,
                pants,
                boots,
                weapon,
            } => {
                let character = create_character_from(
                    user_id,
                    server_id,
                    character_name.clone(),
                    *ref_id,
                    *scale,
                    *chest,
                    *pants,
                    *boots,
                    *weapon,
                );
                tasks.push(CharselectTask::CreateCharacter { character });
                state.character_create = true;
            },
            CharacterListRequestAction::List => {
                if !state.character_receiver {
                    tasks.push(CharselectTask::LoadCharacters);
                    state.character_receiver = true;
                }
            },
            CharacterListRequestAction::CheckName { character_name } => {
                if !state.character_name_check {
                    tasks.push(CharselectTask::CheckName { character_name: character_name.clone() });
                    state.character_name_check = true;
                }
            },
            CharacterListRequestAction::ShowJobSpread => {
                messages.push(send_job_spread(hunter_percentage, thief_percentage));
            },
            _ => {},
        },
        ClientPacket::CharacterJoinRequest { character_name } => {
            match &state.characters {
                Some(characters) => {
                    match find_character_index(characters, character_name) {
                        Some(index) => {
                            messages.push(
                                ServerPacket::CharacterJoinResponse(
                                    CharacterJoinResponse::new(CharacterJoinResult::Success),
                                ),
                            );
                            join = Some(index);
                        },
                        None => {},
                    }
                },
                None => {
                    messages.push(
                        ServerPacket::CharacterJoinResponse(
                            CharacterJoinResponse::new(
                                CharacterJoinResult::Failure {
                                    error: CharacterListError::ReachedCapacity,
                                },
                            ),
                        ),
                    );
                },
            }
        },
        _ => {},
    }
    CharselectPacketOutcome { messages, tasks, join }
}

/// Consume the result of the character-load task: answer with the list and
/// remember it; a failed load only clears the pending flag so the client can
/// retry.
pub fn handle_characters_loaded(state: &mut CharacterSelect, result: Option<Vec<Character>>) -> (r:
    Vec<ServerPacket>)
    ensures
        !final(state).character_receiver,
        final(state).character_name_check == old(state).character_name_check,
        final(state).character_create == old(state).character_create,
        match result {
            Some(ref characters) => final(state).characters == Some(*characters) && r@.len() == 1,
            None => final(state).characters == old(state).characters && r@.len() == 0,
        },
{
    state.character_receiver = false;
    match result {
        Some(characters) => {
            let messages = send_character_list(&characters);
            state.characters = Some(characters);
            messages
        },
        None => Vec::new(),
    }
}

/// Consume the result of the name-availability check: a free name is
/// acknowledged, a taken one refused; a failed check only clears the pending
/// flag.
pub fn handle_name_checked(state: &mut CharacterSelect, result: Option<bool>) -> (r: Vec<
    ServerPacket,
>)
    ensures
        *final(state) == (CharacterSelect { character_name_check: false, ..*old(state) }),
        match result {
            Some(available) => r@ =~= seq![
                ServerPacket::CharacterListResponse(
                    CharacterListResponse {
                        action: CharacterListAction::CheckName,
                        result: if available {
                            CharacterListResult::Listed { content: CharacterListContent::Empty }
                        } else {
                            CharacterListResult::Refused {
                                error: CharacterListError::NameAlreadyUsed,
                            }
                        },
                    },
                ),
            ],
            None => r@.len() == 0,
        },
{
    state.character_name_check = false;
    match result {
        Some(available) => {
            let result = if available {
                CharacterListResult::ok(CharacterListContent::Empty)
            } else {
                CharacterListResult::error(CharacterListError::NameAlreadyUsed)
            };
            let mut messages: Vec<ServerPacket> = Vec::new();
            messages.push(
                ServerPacket::CharacterListResponse(
                    CharacterListResponse::new(CharacterListAction::CheckName, result),
                ),
            );
            messages
        },
        None => Vec::new(),
    }
}

/// Consume the result of the character-create task: success is acknowledged;
/// a failure only clears the pending flag.
pub fn handle_character_created(state: &mut CharacterSelect, ok: bool) -> (r: Vec<ServerPacket>)
    ensures
        *final(state) == (CharacterSelect { character_create: false, ..*old(state) }),
        ok ==> r@ =~= seq![
            ServerPacket::CharacterListResponse(
                CharacterListResponse {
                    action: CharacterListAction::Create,
                    result: CharacterListResult::Listed { content: CharacterListContent::Empty },
                },
            ),
        ],
        !ok ==> r@.len() == 0,
{
    state.character_create = false;
    if ok {
        let mut messages: Vec<ServerPacket> = Vec::new();
        messages.push(
            ServerPacket::CharacterListResponse(
                CharacterListResponse::new(
                    CharacterListAction::Create,
                    CharacterListResult::ok(CharacterListContent::Empty),
                ),
            ),
        );
        messages
    } else {
        Vec::new()
    }
}

} // verus!
