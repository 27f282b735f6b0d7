use vstd::prelude::*;
use crate::protocol::{
    CelestialUpdate, CharacterEquipItem, CharacterFinished, CharacterPointsUpdate,
    CharacterUnequipItem, EntityBarsUpdate, EntityState, EntityUpdateState, GameNotification,
    GroupSpawnDataContent, GroupSpawnType, IncreaseIntResponse, IncreaseStrResponse,
    InventoryItemData, InventoryOperationRequest, InventoryOperationResult, JobType,
    LevelUpEffect, LunarEventInfo, PerformActionResponse, PlayerMovementResponse,
    PlayerPickupAnimation, TargetEntityResponse, UnTargetEntityResponse, WeatherUpdate,
};

verus! {

// ---------------------------------------------------------------------------
// Character-select payloads.
// ---------------------------------------------------------------------------

#[derive(Copy, Clone, Eq, PartialEq, Structural, Debug)]
pub enum CharacterListAction {
    Create,
    List,
    Delete,
    CheckName,
    Restore,
    ShowJobSpread,
    AssignJob,
}

#[derive(Copy, Clone, Eq, PartialEq, Structural, Debug)]
pub enum CharacterListError {
    ReachedCapacity,
    NameAlreadyUsed,
}

#[derive(Copy, Clone, Eq, PartialEq, Structural, Debug)]
pub struct CharacterListEquippedItem {
    pub ref_id: u32,
    pub upgrade_level: u8,
}

impl CharacterListEquippedItem {
    pub fn new(ref_id: u32, upgrade_level: u8) -> (r: Self)
        ensures
            r == (CharacterListEquippedItem { ref_id, upgrade_level }),
    {
        CharacterListEquippedItem { ref_id, upgrade_level }
    }
}

/// One row of the character-select list.
#[derive(Clone, Eq, PartialEq, Debug)]
pub struct CharacterListEntry {
    pub ref_id: u32,
    pub name: String,
    pub unknown_1: u8,
    pub unknown_2: u8,
    pub scale: u8,
    pub level: u8,
    pub exp: u64,
    pub sp: u32,
    pub strength: u16,
    pub intelligence: u16,
    pub stat_points: u16,
    pub hp: u32,
    pub mp: u32,
    pub remaining_deletion_time: Option<u32>,
    pub region: u16,
    pub last_logout: u32,
    pub guild_member_class: u8,
    pub guild_rename_required: Option<String>,
    pub academy_member_class: u8,
    pub equipped_items: Vec<CharacterListEquippedItem>,
    pub avatar_items: Vec<CharacterListEquippedItem>,
}

#[derive(Clone, Eq, PartialEq, Debug)]
pub enum CharacterListContent {
    Empty,
    Characters { characters: Vec<CharacterListEntry>, job: u8 },
    JobSpread { hunters: u8, thieves: u8 },
}

impl CharacterListContent {
    pub fn characters(characters: Vec<CharacterListEntry>, job: u8) -> (r: Self)
        ensures
            r == (CharacterListContent::Characters { characters, job }),
    {
        CharacterListContent::Characters { characters, job }
    }

    pub fn jobspread(hunters: u8, thieves: u8) -> (r: Self)
        ensures
            r == (CharacterListContent::JobSpread { hunters, thieves }),
    {
        CharacterListContent::JobSpread { hunters, thieves }
    }
}

#[derive(Clone, Eq, PartialEq, Debug)]
pub enum CharacterListResult {
    Listed { content: CharacterListContent },
    Refused { error: CharacterListError },
}

impl CharacterListResult {
    pub fn ok(content: CharacterListContent) -> (r: Self)
        ensures
            r == (CharacterListResult::Listed { content }),
    {
        CharacterListResult::Listed { content }
    }

    pub fn error(error: CharacterListError) -> (r: Self)
        ensures
            r == (CharacterListResult::Refused { error }),
    {
        CharacterListResult::Refused { error }
    }
}

#[derive(Clone, Eq, PartialEq, Debug)]
pub struct CharacterListResponse {
    pub action: CharacterListAction,
    pub result: CharacterListResult,
}

impl CharacterListResponse {
    pub fn new(action: CharacterListAction, result: CharacterListResult) -> (r: Self)
        ensures
            r == (CharacterListResponse { action, result }),
    {
        CharacterListResponse { action, result }
    }
}

#[derive(Copy, Clone, Eq, PartialEq, Structural, Debug)]
pub enum CharacterJoinResult {
    Success,
    Failure { error: CharacterListError },
}

#[derive(Copy, Clone, Eq, PartialEq, Structural, Debug)]
pub struct CharacterJoinResponse {
    pub result: CharacterJoinResult,
}

impl CharacterJoinResponse {
    pub fn new(result: CharacterJoinResult) -> (r: Self)
        ensures
            r == (CharacterJoinResponse { result }),
    {
        CharacterJoinResponse { result }
    }
}

/// A position as carried on the wire: the region id and local coordinates in
/// tenths of a unit.
#[derive(Copy, Clone, Eq, PartialEq, Structural, Debug)]
pub struct ProtocolLocation {
    pub region: u16,
    pub x_tenths: i32,
    pub y_tenths: i32,
    pub z_tenths: i32,
}

/// The initial spawn payload of the player's own character.
#[derive(Clone, Eq, PartialEq, Debug)]
pub struct CharacterSpawn {
    pub time: u32,
    pub ref_id: u32,
    pub scale: u8,
    pub level: u8,
    pub max_level: u8,
    pub exp: u64,
    pub sp_exp: u32,
    pub gold: u64,
    pub sp: u32,
    pub stat_points: u16,
    pub berserk_points: u8,
    pub current_hp: u32,
    pub current_mp: u32,
    pub beginner_mark: bool,
    pub max_level_cap: u8,
    pub inventory_size: u8,
    pub inventory_items: Vec<InventoryItemData>,
    pub unique_id: u32,
    pub position: ProtocolLocation,
    pub heading: u16,
    pub entity_state: EntityState,
    pub name: String,
    pub job: JobType,
    pub gm: bool,
}

// ---------------------------------------------------------------------------
// Inbound client messages.
// ---------------------------------------------------------------------------

#[derive(Clone, Eq, PartialEq, Debug)]
pub enum CharacterListRequestAction {
    Create {
        character_name: String,
        ref_id: u32,
        scale: u8,
        chest: u32,
        pants: u32,
        boots: u32,
        weapon: u32,
    },
    List,
    Delete { character_name: String },
    CheckName { character_name: String },
    Restore { character_name: String },
    ShowJobSpread,
    AssignJob { job: u8 },
}

#[derive(Copy, Clone, Eq, PartialEq, Structural, Debug)]
pub enum MovementRequest {
    Location { region: u16, x: u16, y: u16, z: u16 },
    Direction { heading: u16 },
}

#[derive(Clone, Eq, PartialEq, Debug)]
pub struct ChatMessage {
    pub message: String,
}

#[derive(Copy, Clone, Eq, PartialEq, Structural, Debug)]
pub struct PerformAction {
    pub skill_id: u32,
    pub target: Option<u32>,
}

#[derive(Copy, Clone, Eq, PartialEq, Structural, Debug)]
pub enum StatType {
    STR,
    INT,
}

/// A typed message received from a client.
#[derive(Clone, Eq, PartialEq, Debug)]
pub enum ClientPacket {
    CharacterListRequest { action: CharacterListRequestAction },
    CharacterJoinRequest { character_name: String },
    FinishLoading,
    ConsignmentList,
    PlayerMovementRequest { kind: MovementRequest },
    AddFriend,
    CreateFriendGroup,
    DeleteFriend,
    Rotation { heading: u16 },
    TargetEntity { unique_id: u32 },
    UnTargetEntity { unique_id: u32 },
    InventoryOperation { data: InventoryOperationRequest },
    ChatMessage { chat: ChatMessage },
    IdentityInformation { module_name: String, locality: u8 },
    KeepAlive,
    AuthRequest { token: u32, username: String, password: String },
    LogoutRequest { mode: u8 },
    GmCommand { command: String },
    OpenItemMall,
    PerformAction { action: PerformAction },
    UpdateGameGuide { page: u32 },
    LevelUpMastery { mastery: u32, amount: u8 },
    LearnSkill { skill: u32 },
    IncreaseStr,
    IncreaseInt,
}

// ---------------------------------------------------------------------------
// Outbound server messages.
// ---------------------------------------------------------------------------

/// Which server module a connection is speaking to; the transport writes the
/// module's wire name into the identity frame.
#[derive(Copy, Clone, Eq, PartialEq, Structural, Debug)]
pub enum ModuleName {
    AgentServer,
    GatewayServer,
}

impl ModuleName {
    /// The name as it goes on the wire.
    pub fn text(&self) -> (r: &'static str)
        ensures
            match *self {
                ModuleName::AgentServer => r@ == "AgentServer"@,
                ModuleName::GatewayServer => r@ == "GatewayServer"@,
            },
    {
        match *self {
            ModuleName::AgentServer => "AgentServer",
            ModuleName::GatewayServer => "GatewayServer",
        }
    }
}

/// A typed message to be sent to a client; the transport layer owns framing
/// and encryption.
#[derive(Clone, Eq, PartialEq, Debug)]
pub enum ServerPacket {
    CharacterListResponse(CharacterListResponse),
    CharacterJoinResponse(CharacterJoinResponse),
    CharacterEquipItem(CharacterEquipItem),
    CharacterUnequipItem(CharacterUnequipItem),
    CelestialUpdate(CelestialUpdate),
    LunarEventInfo(LunarEventInfo),
    CharacterSpawnStart,
    CharacterSpawn(CharacterSpawn),
    CharacterSpawnEnd,
    CharacterFinished(CharacterFinished),
    EntityDespawn { id: u32 },
    EntitySpawn { ref_id: u32, unique_id: u32 },
    GroupEntitySpawnStart { kind: GroupSpawnType, count: u16 },
    GroupEntitySpawnData { contents: Vec<GroupSpawnDataContent> },
    GroupEntitySpawnEnd,
    /// The consignment list is always answered empty.
    ConsignmentResponse,
    WeatherUpdate(WeatherUpdate),
    GameNotification(GameNotification),
    PlayerMovementResponse(PlayerMovementResponse),
    EntityUpdateState(EntityUpdateState),
    TargetEntityResponse(TargetEntityResponse),
    UnTargetEntityResponse(UnTargetEntityResponse),
    PatchResponse,
    LoginResponse,
    GatewayNoticeResponse,
    IdentityInformation { module_name: ModuleName, locality: u8 },
    EntityBarsUpdate(EntityBarsUpdate),
    InventoryOperationResult(InventoryOperationResult),
    PerformActionResponse(PerformActionResponse),
    CharacterPointsUpdate(CharacterPointsUpdate),
    GameGuideResponse { page: u32 },
    PlayerPickupAnimation(PlayerPickupAnimation),
    LevelUpEffect(LevelUpEffect),
    IncreaseStrResponse(IncreaseStrResponse),
    IncreaseIntResponse(IncreaseIntResponse),
}

impl ServerPacket {
    /// The wire opcode under which this message is framed.
    pub open spec fn spec_opcode(&self) -> u16 {
        match *self {
            ServerPacket::CharacterListResponse(_) => 0xB007,
            ServerPacket::CharacterJoinResponse(_) => 0xB001,
            ServerPacket::CharacterEquipItem(_) => 0x3038,
            ServerPacket::CharacterUnequipItem(_) => 0x3039,
            ServerPacket::CelestialUpdate(_) => 0x3020,
            ServerPacket::LunarEventInfo(_) => 0x34f2,
            ServerPacket::CharacterSpawnStart => 0x34A5,
            ServerPacket::CharacterSpawn(_) => 0x3013,
            ServerPacket::CharacterSpawnEnd => 0x34A6,
            ServerPacket::CharacterFinished(_) => 0x3077,
            ServerPacket::EntityDespawn { .. } => 0x3016,
            ServerPacket::EntitySpawn { .. } => 0x3015,
            ServerPacket::GroupEntitySpawnStart { .. } => 0x3017,
            ServerPacket::GroupEntitySpawnData { .. } => 0x3019,
            ServerPacket::GroupEntitySpawnEnd => 0x3018,
            ServerPacket::ConsignmentResponse => 0xB50E,
            ServerPacket::WeatherUpdate(_) => 0x3809,
            ServerPacket::GameNotification(_) => 0x300C,
            ServerPacket::PlayerMovementResponse(_) => 0xB021,
            ServerPacket::EntityUpdateState(_) => 0x30BF,
            ServerPacket::TargetEntityResponse(_) => 0xB045,
            ServerPacket::UnTargetEntityResponse(_) => 0xB04B,
            ServerPacket::PatchResponse => 0xA100,
            ServerPacket::LoginResponse => 0xA10A,
            ServerPacket::GatewayNoticeResponse => 0xA104,
            ServerPacket::IdentityInformation { .. } => 0x2001,
            ServerPacket::EntityBarsUpdate(_) => 0x3057,
            ServerPacket::InventoryOperationResult(_) => 0xB034,
            ServerPacket::PerformActionResponse(_) => 0xB074,
            ServerPacket::CharacterPointsUpdate(_) => 0x304E,
            ServerPacket::GameGuideResponse { .. } => 0xB0EA,
            ServerPacket::PlayerPickupAnimation(_) => 0x3036,
            ServerPacket::LevelUpEffect(_) => 0x3054,
            ServerPacket::IncreaseStrResponse(_) => 0xB050,
            ServerPacket::IncreaseIntResponse(_) => 0xB051,
        }
    }

    pub fn opcode(&self) -> (r: u16)
        ensures
            r == self.spec_opcode(),
    {
        match *self {
            ServerPacket::CharacterListResponse(_) => 0xB007,
            ServerPacket::CharacterJoinResponse(_) => 0xB001,
            ServerPacket::CharacterEquipItem(_) => 0x3038,
            ServerPacket::CharacterUnequipItem(_) => 0x3039,
            ServerPacket::CelestialUpdate(_) => 0x3020,
            ServerPacket::LunarEventInfo(_) => 0x34f2,
            ServerPacket::CharacterSpawnStart => 0x34A5,
            ServerPacket::CharacterSpawn(_) => 0x3013,
            ServerPacket::CharacterSpawnEnd => 0x34A6,
            ServerPacket::CharacterFinished(_) => 0x3077,
            ServerPacket::EntityDespawn { .. } => 0x3016,
            ServerPacket::EntitySpawn { .. } => 0x3015,
            ServerPacket::GroupEntitySpawnStart { .. } => 0x3017,
            ServerPacket::GroupEntitySpawnData { .. } => 0x3019,
            ServerPacket::GroupEntitySpawnEnd => 0x3018,
            ServerPacket::ConsignmentResponse => 0xB50E,
            ServerPacket::WeatherUpdate(_) => 0x3809,
            ServerPacket::GameNotification(_) => 0x300C,
            ServerPacket::PlayerMovementResponse(_) => 0xB021,
            ServerPacket::EntityUpdateState(_) => 0x30BF,
            ServerPacket::TargetEntityResponse(_) => 0xB045,
            ServerPacket::UnTargetEntityResponse(_) => 0xB04B,
            ServerPacket::PatchResponse => 0xA100,
            ServerPacket::LoginResponse => 0xA10A,
            ServerPacket::GatewayNoticeResponse => 0xA104,
            ServerPacket::IdentityInformation { .. } => 0x2001,
            ServerPacket::EntityBarsUpdate(_) => 0x3057,
            ServerPacket::InventoryOperationResult(_) => 0xB034,
            ServerPacket::PerformActionResponse(_) => 0xB074,
            ServerPacket::CharacterPointsUpdate(_) => 0x304E,
            ServerPacket::GameGuideResponse { .. } => 0xB0EA,
            ServerPacket::PlayerPickupAnimation(_) => 0x3036,
            ServerPacket::LevelUpEffect(_) => 0x3054,
            ServerPacket::IncreaseStrResponse(_) => 0xB050,
            ServerPacket::IncreaseIntResponse(_) => 0xB051,
        }
    }

    /// Whether the message goes out in the oversized ("massive") frame form.
    pub fn is_massive(&self) -> (r: bool)
        ensures
            r == matches!(
                *self,
                ServerPacket::PatchResponse | ServerPacket::GatewayNoticeResponse,
            ),
    {
        matches!(*self, ServerPacket::PatchResponse | ServerPacket::GatewayNoticeResponse)
    }

    /// Whether the message's frame must be encrypted.
    pub fn is_encrypted(&self) -> (r: bool)
        ensures
            r == matches!(*self, ServerPacket::LoginResponse),
    {
        matches!(*self, ServerPacket::LoginResponse)
    }
}

} // verus!
