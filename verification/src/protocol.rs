use vstd::prelude::*;

verus! {

// ---------------------------------------------------------------------------
// World-state message payloads.
// ---------------------------------------------------------------------------

#[derive(Copy, Clone, Eq, PartialEq, Structural, Debug)]
pub enum PvpCape {
    NoCape,
    Red,
    Gray,
    Blue,
    White,
    Yellow,
}

#[derive(Copy, Clone, Eq, PartialEq, Structural, Debug)]
pub enum AliveState {
    Spawning,
    Alive,
    Dead,
}

#[derive(Copy, Clone, Eq, PartialEq, Structural, Debug)]
pub enum JobType {
    NoJob,
    Trader,
    Thief,
    Hunter,
}

#[derive(Copy, Clone, Eq, PartialEq, Structural, Debug)]
pub enum PlayerKillState {
    Neutral,
    Purple,
    Red,
}

#[derive(Copy, Clone, Eq, PartialEq, Structural, Debug)]
pub enum ActiveScroll {
    NoScroll,
    ReturnScroll,
    JobScroll,
}

#[derive(Clone, Eq, PartialEq, Debug)]
pub enum InteractOptions {
    NoInteraction,
    Talk { options: Vec<u8> },
}

impl InteractOptions {
    pub fn talk(options: Vec<u8>) -> (r: Self)
        ensures
            r == (InteractOptions::Talk { options }),
    {
        InteractOptions::Talk { options }
    }
}

#[derive(Copy, Clone, Eq, PartialEq, Structural, Debug)]
pub enum BodyState {
    Normal,
    Berserk,
    Untouchable,
    GMInvincible,
    GMInvisible,
    Berserk2,
    Stealth,
    Invisible,
}

#[derive(Copy, Clone, Eq, PartialEq, Structural, Debug)]
pub enum WeatherType {
    Clear,
    Rain,
    Snow,
}

#[derive(Copy, Clone, Eq, PartialEq, Structural, Debug)]
pub enum ActionState {
    Idle,
    Walking,
    Running,
    Sitting,
}

/// How an entity is currently moving.
#[derive(Copy, Clone, Eq, PartialEq, Structural, Debug)]
pub enum MovementType {
    Walking,
    Running,
}

#[derive(Copy, Clone, Eq, PartialEq, Structural, Debug)]
pub enum TargetEntityError {
    InvalidTarget,
}

#[derive(Clone, Eq, PartialEq, Debug)]
pub enum TargetEntityData {
    Monster { unknown: u32, interact_data: Option<u8> },
    NPC { talk_options: Option<InteractOptions> },
}

#[derive(Clone, Eq, PartialEq, Debug)]
pub enum TargetEntityResult {
    Failure { error: TargetEntityError },
    Success { unique_id: u32, health: Option<u32>, entity_data: TargetEntityData },
}

impl TargetEntityResult {
    pub fn failure(error: TargetEntityError) -> (r: Self)
        ensures
            r == (TargetEntityResult::Failure { error }),
    {
        TargetEntityResult::Failure { error }
    }

    pub fn success_monster(unique_id: u32, health: u32) -> (r: Self)
        ensures
            r == (TargetEntityResult::Success {
                unique_id,
                health: Some(health),
                entity_data: TargetEntityData::Monster { unknown: 0u32, interact_data: Some(5u8) },
            }),
    {
        TargetEntityResult::Success {
            unique_id,
            health: Some(health),
            entity_data: TargetEntityData::Monster { unknown: 0, interact_data: Some(5) },
        }
    }

    pub fn success_npc(unique_id: u32) -> (r: Self)
        ensures
            ({
                &&& r matches TargetEntityResult::Success { unique_id: id, health, entity_data }
                &&& id == unique_id
                &&& health is None
                &&& entity_data matches TargetEntityData::NPC {
                    talk_options: Some(InteractOptions::Talk { options: inner }),
                }
                &&& inner@.len() == 0
            }),
    {
        TargetEntityResult::Success {
            unique_id,
            health: None,
            entity_data: TargetEntityData::NPC {
                talk_options: Some(InteractOptions::talk(Vec::new())),
            },
        }
    }
}

/// Movement speeds are carried in tenths of a unit per second.
#[derive(Clone, Eq, PartialEq, Debug)]
pub struct EntityState {
    pub alive: AliveState,
    pub unknown1: u8,
    pub action_state: ActionState,
    pub body_state: BodyState,
    pub unknown2: u8,
    pub walk_speed_tenths: u32,
    pub run_speed_tenths: u32,
    pub berserk_speed_tenths: u32,
    pub active_buffs: Vec<ActiveBuffData>,
}

impl EntityState {
    pub fn new(
        alive: AliveState,
        action_state: ActionState,
        body_state: BodyState,
        walk_speed_tenths: u32,
        run_speed_tenths: u32,
        berserk_speed_tenths: u32,
        active_buffs: Vec<ActiveBuffData>,
    ) -> (r: Self)
        ensures
            r == (EntityState {
                alive,
                unknown1: 0u8,
                action_state,
                body_state,
                unknown2: 0u8,
                walk_speed_tenths,
                run_speed_tenths,
                berserk_speed_tenths,
                active_buffs,
            }),
    {
        EntityState {
            alive,
            unknown1: 0,
            action_state,
            body_state,
            unknown2: 0,
            walk_speed_tenths,
            run_speed_tenths,
            berserk_speed_tenths,
            active_buffs,
        }
    }
}

#[derive(Copy, Clone, Eq, PartialEq, Structural, Debug)]
pub struct ActiveBuffData {
    pub id: u32,
    pub token: u32,
}

impl ActiveBuffData {
    pub fn new(id: u32, token: u32) -> (r: Self)
        ensures
            r == (ActiveBuffData { id, token }),
    {
        ActiveBuffData { id, token }
    }
}

#[derive(Copy, Clone, Eq, PartialEq, Structural, Debug)]
pub struct CelestialUpdate {
    pub unique_id: u32,
    pub moon_position: u16,
    pub hour: u8,
    pub minute: u8,
}

impl CelestialUpdate {
    pub fn new(unique_id: u32, moon_position: u16, hour: u8, minute: u8) -> (r: Self)
        ensures
            r == (CelestialUpdate { unique_id, moon_position, hour, minute }),
    {
        CelestialUpdate { unique_id, moon_position, hour, minute }
    }
}

#[derive(Copy, Clone, Eq, PartialEq, Structural, Debug)]
pub struct LunarEventInfo {
    pub unknown_1: u8,
    pub unknown_2: u8,
    pub unknown_3: u32,
    pub unknown_4: u32,
    pub current_achieved: u32,
    pub total: u32,
}

impl LunarEventInfo {
    pub fn new(current_achieved: u32, total: u32) -> (r: Self)
        ensures
            r == (LunarEventInfo {
                unknown_1: 2u8,
                unknown_2: 3u8,
                unknown_3: 1u32,
                unknown_4: 0x7535u32,
                current_achieved,
                total,
            }),
    {
        LunarEventInfo {
            unknown_1: 2,
            unknown_2: 3,
            unknown_3: 1,
            unknown_4: 0x7535,
            current_achieved,
            total,
        }
    }
}

#[derive(Copy, Clone, Eq, PartialEq, Structural, Debug)]
pub struct CooldownInfo {
    pub ref_id: u32,
    pub cooldown: u32,
}

#[derive(Clone, Eq, PartialEq, Debug)]
pub struct CharacterFinished {
    pub item_cooldowns: Vec<CooldownInfo>,
    pub skill_cooldowns: Vec<CooldownInfo>,
}

#[derive(Copy, Clone, Eq, PartialEq, Structural, Debug)]
pub struct WeatherUpdate {
    pub kind: WeatherType,
    pub speed: u8,
}

impl WeatherUpdate {
    pub fn new(kind: WeatherType, speed: u8) -> (r: Self)
        ensures
            r == (WeatherUpdate { kind, speed }),
    {
        WeatherUpdate { kind, speed }
    }
}

#[derive(Clone, Eq, PartialEq, Debug)]
pub enum GameNotification {
    UniqueSpawned { ref_id: u32 },
    UniqueKilled { ref_id: u32, player: String },
}

impl GameNotification {
    pub fn uniquespawned(ref_id: u32) -> (r: Self)
        ensures
            r == (GameNotification::UniqueSpawned { ref_id }),
    {
        GameNotification::UniqueSpawned { ref_id }
    }

    pub fn uniquekilled(ref_id: u32, killer: String) -> (r: Self)
        ensures
            r == (GameNotification::UniqueKilled { ref_id, player: killer }),
    {
        GameNotification::UniqueKilled { ref_id, player: killer }
    }
}

#[derive(Copy, Clone, Eq, PartialEq, Structural, Debug)]
pub enum UpdatedState {
    Life(AliveState),
    Movement(MovementType),
    Body(BodyState),
    Pvp(u8),
    Battle(bool),
    Scroll(u8),
}

#[derive(Copy, Clone, Eq, PartialEq, Structural, Debug)]
pub struct EntityUpdateState {
    pub unique_id: u32,
    pub update: UpdatedState,
}

impl EntityUpdateState {
    pub fn life(unique_id: u32, new: AliveState) -> (r: Self)
        ensures
            r == (EntityUpdateState { unique_id, update: UpdatedState::Life(new) }),
    {
        EntityUpdateState { unique_id, update: UpdatedState::Life(new) }
    }

    pub fn movement(unique_id: u32, new: MovementType) -> (r: Self)
        ensures
            r == (EntityUpdateState { unique_id, update: UpdatedState::Movement(new) }),
    {
        EntityUpdateState { unique_id, update: UpdatedState::Movement(new) }
    }

    pub fn body(unique_id: u32, new: BodyState) -> (r: Self)
        ensures
            r == (EntityUpdateState { unique_id, update: UpdatedState::Body(new) }),
    {
        EntityUpdateState { unique_id, update: UpdatedState::Body(new) }
    }
}

#[derive(Copy, Clone, Eq, PartialEq, Structural, Debug)]
pub struct TargetEntity {
    pub unique_id: u32,
}

#[derive(Clone, Eq, PartialEq, Debug)]
pub struct TargetEntityResponse {
    pub result: TargetEntityResult,
}

impl TargetEntityResponse {
    pub fn new(result: TargetEntityResult) -> (r: Self)
        ensures
            r == (TargetEntityResponse { result }),
    {
        TargetEntityResponse { result }
    }
}

#[derive(Copy, Clone, Eq, PartialEq, Structural, Debug)]
pub struct UnTargetEntity {
    pub unique_id: u32,
}

#[derive(Copy, Clone, Eq, PartialEq, Structural, Debug)]
pub struct UnTargetEntityResponse {
    pub success: bool,
}

impl UnTargetEntityResponse {
    pub fn new(success: bool) -> (r: Self)
        ensures
            r == (UnTargetEntityResponse { success }),
    {
        UnTargetEntityResponse { success }
    }
}

#[derive(Copy, Clone, Eq, PartialEq, Structural, Debug)]
pub enum EntityBarUpdateSource {
    Damage,
    Regen,
    LevelUp,
}

#[derive(Clone, Eq, PartialEq, Debug)]
pub enum EntityBarUpdates {
    Unchanged,
    HP { amount: u32 },
    MP { amount: u32 },
    Both { hp: u32, mp: u32 },
    Status { effects: u32, levels: Vec<u8> },
}

#[derive(Clone, Eq, PartialEq, Debug)]
pub struct EntityBarsUpdate {
    pub unique_id: u32,
    pub source: EntityBarUpdateSource,
    pub updates: EntityBarUpdates,
}

impl EntityBarsUpdate {
    pub fn hp(unique_id: u32, source: EntityBarUpdateSource, hp: u32) -> (r: Self)
        ensures
            r == (EntityBarsUpdate {
                unique_id,
                source,
                updates: EntityBarUpdates::HP { amount: hp },
            }),
    {
        EntityBarsUpdate { unique_id, source, updates: EntityBarUpdates::HP { amount: hp } }
    }

    pub fn mp(unique_id: u32, source: EntityBarUpdateSource, mp: u32) -> (r: Self)
        ensures
            r == (EntityBarsUpdate {
                unique_id,
                source,
                updates: EntityBarUpdates::MP { amount: mp },
            }),
    {
        EntityBarsUpdate { unique_id, source, updates: EntityBarUpdates::MP { amount: mp } }
    }
}

#[derive(Copy, Clone, Eq, PartialEq, Structural, Debug)]
pub enum CharacterPointsUpdate {
    Gold { amount: u64, display: bool },
    SP { amount: u32, display: bool },
    StatPoints(u16),
    Berserk { amount: u8, source: u32 },
}

impl CharacterPointsUpdate {
    pub fn sp(amount: u32) -> (r: Self)
        ensures
            r == (CharacterPointsUpdate::SP { amount, display: false }),
    {
        CharacterPointsUpdate::SP { amount, display: false }
    }
}

#[derive(Copy, Clone, Eq, PartialEq, Structural, Debug)]
pub struct CharacterEquipItem {
    pub entity: u32,
    pub slot: u8,
    pub item_ref: u32,
}

impl CharacterEquipItem {
    pub fn new(entity: u32, slot: u8, item_ref: u32) -> (r: Self)
        ensures
            r == (CharacterEquipItem { entity, slot, item_ref }),
    {
        CharacterEquipItem { entity, slot, item_ref }
    }
}

#[derive(Copy, Clone, Eq, PartialEq, Structural, Debug)]
pub struct CharacterUnequipItem {
    pub entity: u32,
    pub slot: u8,
    pub item_ref: u32,
}

impl CharacterUnequipItem {
    pub fn new(entity: u32, slot: u8, item_ref: u32) -> (r: Self)
        ensures
            r == (CharacterUnequipItem { entity, slot, item_ref }),
    {
        CharacterUnequipItem { entity, slot, item_ref }
    }
}

#[derive(Copy, Clone, Eq, PartialEq, Structural, Debug)]
pub struct PlayerPickupAnimation {
    pub entity: u32,
    pub rotation: u8,
}

#[derive(Copy, Clone, Eq, PartialEq, Structural, Debug)]
pub struct LevelUpEffect {
    pub entity: u32,
}

#[derive(Copy, Clone, Eq, PartialEq, Structural, Debug)]
pub struct IncreaseStr;

#[derive(Copy, Clone, Eq, PartialEq, Structural, Debug)]
pub enum IncreaseStrResponse {
    Success,
    Error(u16),
}

#[derive(Copy, Clone, Eq, PartialEq, Structural, Debug)]
pub struct IncreaseInt;

#[derive(Copy, Clone, Eq, PartialEq, Structural, Debug)]
pub enum IncreaseIntResponse {
    Success,
    Error(u16),
}

// ---------------------------------------------------------------------------
// Movement and spawn-group payloads.
// ---------------------------------------------------------------------------

/// Where a movement ends: an absolute spot (whole units within a region) or
/// just a facing change.
#[derive(Copy, Clone, Eq, PartialEq, Structural, Debug)]
pub enum MovementDestination {
    Location { region: u16, x: u16, y: u16, z: u16 },
    Direction { moving: bool, heading: u16 },
}

impl MovementDestination {
    pub fn location(region: u16, x: u16, y: u16, z: u16) -> (r: Self)
        ensures
            r == (MovementDestination::Location { region, x, y, z }),
    {
        MovementDestination::Location { region, x, y, z }
    }

    pub fn direction(moving: bool, heading: u16) -> (r: Self)
        ensures
            r == (MovementDestination::Direction { moving, heading }),
    {
        MovementDestination::Direction { moving, heading }
    }
}

/// Where a movement started, in tenths of a unit within the region; the
/// height keeps its sign.
#[derive(Copy, Clone, Eq, PartialEq, Structural, Debug)]
pub struct MovementSource {
    pub region: u16,
    pub x_tenths: u16,
    pub y_tenths: i32,
    pub z_tenths: u16,
}

impl MovementSource {
    pub fn new(region: u16, x_tenths: u16, y_tenths: i32, z_tenths: u16) -> (r: Self)
        ensures
            r == (MovementSource { region, x_tenths, y_tenths, z_tenths }),
    {
        MovementSource { region, x_tenths, y_tenths, z_tenths }
    }
}

#[derive(Copy, Clone, Eq, PartialEq, Structural, Debug)]
pub struct PlayerMovementResponse {
    pub player_id: u32,
    pub destination: MovementDestination,
    pub source: Option<MovementSource>,
}

impl PlayerMovementResponse {
    pub fn new(
        player_id: u32,
        destination: MovementDestination,
        source: Option<MovementSource>,
    ) -> (r: Self)
        ensures
            r == (PlayerMovementResponse { player_id, destination, source }),
    {
        PlayerMovementResponse { player_id, destination, source }
    }
}

#[derive(Copy, Clone, Eq, PartialEq, Structural, Debug)]
pub enum GroupSpawnType {
    Spawn,
    Despawn,
}

#[derive(Copy, Clone, Eq, PartialEq, Structural, Debug)]
pub enum GroupSpawnDataContent {
    Despawn { id: u32 },
    Spawn { ref_id: u32, unique_id: u32 },
}

impl GroupSpawnDataContent {
    pub fn despawn(id: u32) -> (r: Self)
        ensures
            r == (GroupSpawnDataContent::Despawn { id }),
    {
        GroupSpawnDataContent::Despawn { id }
    }

    pub fn spawn(ref_id: u32, unique_id: u32) -> (r: Self)
        ensures
            r == (GroupSpawnDataContent::Spawn { ref_id, unique_id }),
    {
        GroupSpawnDataContent::Spawn { ref_id, unique_id }
    }
}

// ---------------------------------------------------------------------------
// Inventory operation payloads.
// ---------------------------------------------------------------------------

#[derive(Copy, Clone, Eq, PartialEq, Structural, Debug)]
pub struct InventoryItemBindingData {
    pub kind: u8,
    pub value: u8,
}

impl InventoryItemBindingData {
    pub fn new(kind: u8, value: u8) -> (r: Self)
        ensures
            r == (InventoryItemBindingData { kind, value }),
    {
        InventoryItemBindingData { kind, value }
    }
}

#[derive(Clone, Eq, PartialEq, Debug)]
pub enum InventoryItemContentData {
    Equipment {
        plus_level: u8,
        variance: u64,
        durability: u32,
        magic: Vec<u32>,
        bindings_1: InventoryItemBindingData,
        bindings_2: InventoryItemBindingData,
        bindings_3: InventoryItemBindingData,
        bindings_4: InventoryItemBindingData,
    },
    Expendable { stack_size: u16 },
}

#[derive(Clone, Eq, PartialEq, Debug)]
pub struct InventoryItemData {
    pub slot: u8,
    pub rent_data: u32,
    pub item_id: u32,
    pub content_data: InventoryItemContentData,
}

/// A typed rejection of an inventory operation.
#[derive(Copy, Clone, Eq, PartialEq, Structural, Debug)]
pub enum InventoryOperationError {
    /// The item cannot go into that equipment slot for this actor.
    Indisposable,
    /// The referenced slot or entity is not a valid target.
    InvalidTarget,
    /// The actor holds less gold than it tried to drop.
    NotEnoughGold,
    /// No free storage slot is left.
    InventoryFull,
}

#[derive(Clone, Eq, PartialEq, Debug)]
pub enum InventoryOperationResponseData {
    DropGold { amount: u64 },
    MoveItem { source: u8, target: u8, amount: u16 },
    GainItem { slot: u8, ref_id: u32, content: InventoryItemContentData },
}

impl InventoryOperationResponseData {
    pub fn move_item(source: u8, target: u8, amount: u16) -> (r: Self)
        ensures
            r == (InventoryOperationResponseData::MoveItem { source, target, amount }),
    {
        InventoryOperationResponseData::MoveItem { source, target, amount }
    }
}

#[derive(Clone, Eq, PartialEq, Debug)]
pub enum InventoryOperationResult {
    Success(InventoryOperationResponseData),
    Error(InventoryOperationError),
}

impl InventoryOperationResult {
    pub fn success_gain_item(slot: u8, ref_id: u32, content: InventoryItemContentData) -> (r: Self)
        ensures
            r == InventoryOperationResult::Success(
                InventoryOperationResponseData::GainItem { slot, ref_id, content },
            ),
    {
        InventoryOperationResult::Success(
            InventoryOperationResponseData::GainItem { slot, ref_id, content },
        )
    }
}

/// A client's request to mutate its inventory.
#[derive(Copy, Clone, Eq, PartialEq, Structural, Debug)]
pub enum InventoryOperationRequest {
    DropGold { amount: u64 },
    PickupItem { unique_id: u32 },
    Move { source: u8, target: u8, amount: u16 },
    DropItem { slot: u8 },
}

// ---------------------------------------------------------------------------
// Combat action responses.
// ---------------------------------------------------------------------------

#[derive(Copy, Clone, Eq, PartialEq, Structural, Debug)]
pub enum DoActionResponseCode {
    Success,
}

#[derive(Copy, Clone, Eq, PartialEq, Structural, Debug)]
pub enum PerformActionError {
    Completed,
    InvalidTarget,
}

#[derive(Copy, Clone, Eq, PartialEq, Structural, Debug)]
pub enum PerformActionResponse {
    Do(DoActionResponseCode),
    Stop(PerformActionError),
}

} // verus!
