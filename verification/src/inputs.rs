use vstd::prelude::*;
use crate::messages::{
    CharacterListRequestAction, ChatMessage, ClientPacket, ModuleName, MovementRequest,
    PerformAction, ServerPacket, StatType,
};
use crate::protocol::InventoryOperationRequest;

verus! {

/// The per-player input buffer, filled during the Input phase and reset
/// during Cleanup; later messages of the same kind within one tick replace
/// earlier ones, chat and stat increases accumulate.
#[derive(Clone, Eq, PartialEq, Debug)]
pub struct PlayerInput {
    pub chat: Vec<ChatMessage>,
    pub rotation: Option<u16>,
    pub movement: Option<MovementRequest>,
    pub logout: Option<u8>,
    pub target: Option<u32>,
    pub untarget: Option<u32>,
    pub action: Option<PerformAction>,
    pub gm: Option<String>,
    pub inventory: Option<InventoryOperationRequest>,
    pub mastery: Option<(u32, u8)>,
    pub skill_add: Option<u32>,
    pub increase_stats: Vec<StatType>,
}

/// The mathematical value of a player input buffer.
pub struct PlayerInputView {
    pub chat: Seq<ChatMessage>,
    pub rotation: Option<u16>,
    pub movement: Option<MovementRequest>,
    pub logout: Option<u8>,
    pub target: Option<u32>,
    pub untarget: Option<u32>,
    pub action: Option<PerformAction>,
    pub gm: Option<String>,
    pub inventory: Option<InventoryOperationRequest>,
    pub mastery: Option<(u32, u8)>,
    pub skill_add: Option<u32>,
    pub increase_stats: Seq<StatType>,
}

impl View for PlayerInput {
    type V = PlayerInputView;

    open spec fn view(&self) -> PlayerInputView {
        PlayerInputView {
            chat: self.chat@,
            rotation: self.rotation,
            movement: self.movement,
            logout: self.logout,
            target: self.target,
            untarget: self.untarget,
            action: self.action,
            gm: self.gm,
            inventory: self.inventory,
            mastery: self.mastery,
            skill_add: self.skill_add,
            increase_stats: self.increase_stats@,
        }
    }
}

impl PlayerInputView {
    pub open spec fn spec_is_empty(&self) -> bool {
        &&& self.chat.len() == 0
        &&& self.rotation is None
        &&& self.movement is None
        &&& self.logout is None
        &&& self.target is None
        &&& self.untarget is None
        &&& self.action is None
        &&& self.gm is None
        &&& self.inventory is None
        &&& self.mastery is None
        &&& self.skill_add is None
        &&& self.increase_stats.len() == 0
    }
}

impl PlayerInput {
    pub open spec fn spec_is_empty(&self) -> bool {
        self@.spec_is_empty()
    }

    pub fn new() -> (r: PlayerInput)
        ensures
            r.spec_is_empty(),
    {
        PlayerInput {
            chat: Vec::new(),
            rotation: None,
            movement: None,
            logout: None,
            target: None,
            untarget: None,
            action: None,
            gm: None,
            inventory: None,
            mastery: None,
            skill_add: None,
            increase_stats: Vec::new(),
        }
    }

    /// Drop everything buffered; runs in the Cleanup step of each tick.
    pub fn reset(&mut self)
        ensures
            final(self).spec_is_empty(),
    {
        self.chat.clear();
        self.rotation = None;
        self.movement = None;
        self.logout = None;
        self.target = None;
        self.untarget = None;
        self.action = None;
        self.gm = None;
        self.inventory = None;
        self.mastery = None;
        self.skill_add = None;
        self.increase_stats.clear();
    }
}

/// The per-connection input buffer during character selection.
#[derive(Clone, Eq, PartialEq, Debug)]
pub struct LoginInput {
    pub list: Vec<CharacterListRequestAction>,
    pub join: Option<String>,
    pub auth: Option<(u32, String, String)>,
}

/// The mathematical value of a character-select input buffer.
pub struct LoginInputView {
    pub list: Seq<CharacterListRequestAction>,
    pub join: Option<String>,
    pub auth: Option<(u32, String, String)>,
}

impl View for LoginInput {
    type V = LoginInputView;

    open spec fn view(&self) -> LoginInputView {
        LoginInputView { list: self.list@, join: self.join, auth: self.auth }
    }
}

impl LoginInput {
    pub open spec fn spec_is_empty(&self) -> bool {
        &&& self@.list.len() == 0
        &&& self@.join is None
        &&& self@.auth is None
    }

    pub fn new() -> (r: LoginInput)
        ensures
            r.spec_is_empty(),
    {
        LoginInput { list: Vec::new(), join: None, auth: None }
    }

    pub fn reset(&mut self)
        ensures
            final(self).spec_is_empty(),
    {
        self.list.clear();
        self.join = None;
        self.auth = None;
    }
}

/// A side effect of routing one in-game packet.
#[derive(Copy, Clone, Eq, PartialEq, Structural, Debug)]
pub enum GameInputEvent {
    MallOpenRequested,
    LoadingFinished,
}

/// Where one in-game packet goes: the buffer after it, the immediate
/// replies, and the event it raises. Unhandled kinds are dropped.
pub open spec fn spec_route_game(v: PlayerInputView, packet: ClientPacket) -> (
    PlayerInputView,
    Seq<ServerPacket>,
    Option<GameInputEvent>,
) {
    match packet {
        ClientPacket::ChatMessage { chat } => (
            PlayerInputView { chat: v.chat.push(chat), ..v },
            Seq::<ServerPacket>::empty(),
            None,
        ),
        ClientPacket::Rotation { heading } => (
            PlayerInputView { rotation: Some(heading), ..v },
            Seq::<ServerPacket>::empty(),
            None,
        ),
        ClientPacket::PlayerMovementRequest { kind } => (
            PlayerInputView { movement: Some(kind), ..v },
            Seq::<ServerPacket>::empty(),
            None,
        ),
        ClientPacket::LogoutRequest { mode } => (
            PlayerInputView { logout: Some(mode), ..v },
            Seq::<ServerPacket>::empty(),
            None,
        ),
        ClientPacket::TargetEntity { unique_id } => (
            PlayerInputView { target: Some(unique_id), ..v },
            Seq::<ServerPacket>::empty(),
            None,
        ),
        ClientPacket::UnTargetEntity { unique_id } => (
            PlayerInputView { untarget: Some(unique_id), ..v },
            Seq::<ServerPacket>::empty(),
            None,
        ),
        ClientPacket::PerformAction { action } => (
            PlayerInputView { action: Some(action), ..v },
            Seq::<ServerPacket>::empty(),
            None,
        ),
        ClientPacket::GmCommand { command } => (
            PlayerInputView { gm: Some(command), ..v },
            Seq::<ServerPacket>::empty(),
            None,
        ),
        ClientPacket::InventoryOperation { data } => (
            PlayerInputView { inventory: Some(data), ..v },
            Seq::<ServerPacket>::empty(),
            None,
        ),
        ClientPacket::LevelUpMastery { mastery, amount } => (
            PlayerInputView { mastery: Some((mastery, amount)), ..v },
            Seq::<ServerPacket>::empty(),
            None,
        ),
        ClientPacket::LearnSkill { skill } => (
            PlayerInputView { skill_add: Some(skill), ..v },
            Seq::<ServerPacket>::empty(),
            None,
        ),
        ClientPacket::IncreaseStr => (
            PlayerInputView { increase_stats: v.increase_stats.push(StatType::STR), ..v },
            Seq::<ServerPacket>::empty(),
            None,
        ),
        ClientPacket::IncreaseInt => (
            PlayerInputView { increase_stats: v.increase_stats.push(StatType::INT), ..v },
            Seq::<ServerPacket>::empty(),
            None,
        ),
        ClientPacket::OpenItemMall => (
            v,
            Seq::<ServerPacket>::empty(),
            Some(GameInputEvent::MallOpenRequested),
        ),
        ClientPacket::FinishLoading => (
            v,
            Seq::<ServerPacket>::empty(),
            Some(GameInputEvent::LoadingFinished),
        ),
        ClientPacket::ConsignmentList => (v, seq![ServerPacket::ConsignmentResponse], None),
        ClientPacket::UpdateGameGuide { page } => (
            v,
            seq![ServerPacket::GameGuideResponse { page }],
            None,
        ),
        _ => (v, Seq::<ServerPacket>::empty(), None),
    }
}

/// Route one in-game packet into the input buffer.
pub fn route_game_packet(input: &mut PlayerInput, packet: ClientPacket) -> (r: (
    Vec<ServerPacket>,
    Option<GameInputEvent>,
))
    ensures
        ({
            let step = spec_route_game(old(input)@, packet);
            &&& final(input)@ == step.0
            &&& r.0@ =~= step.1
            &&& r.1 == step.2
        }),
{
    let mut replies: Vec<ServerPacket> = Vec::new();
    let mut event: Option<GameInputEvent> = None;
    match packet {
        ClientPacket::ChatMessage { chat } => {
            input.chat.push(chat);
        },
        ClientPacket::Rotation { heading } => {
            input.rotation = Some(heading);
        },
        ClientPacket::PlayerMovementRequest { kind } => {
            input.movement = Some(kind);
        },
        ClientPacket::LogoutRequest { mode } => {
            input.logout = Some(mode);
        },
        ClientPacket::TargetEntity { unique_id } => {
            input.target = Some(unique_id);
        },
        ClientPacket::UnTargetEntity { unique_id } => {
            input.untarget = Some(unique_id);
        },
        ClientPacket::PerformAction { action } => {
            input.action = Some(action);
        },
        ClientPacket::GmCommand { command } => {
            input.gm = Some(command);
        },
        ClientPacket::InventoryOperation { data } => {
            input.inventory = Some(data);
        },
        ClientPacket::LevelUpMastery { mastery, amount } => {
            input.mastery = Some((mastery, amount));
        },
        ClientPacket::LearnSkill { skill } => {
            input.skill_add = Some(skill);
        },
        ClientPacket::IncreaseStr => {
            input.increase_stats.push(StatType::STR);
        },
        ClientPacket::IncreaseInt => {
            input.increase_stats.push(StatType::INT);
        },
        ClientPacket::OpenItemMall => {
            event = Some(GameInputEvent::MallOpenRequested);
        },
        ClientPacket::FinishLoading => {
            event = Some(GameInputEvent::LoadingFinished);
        },
        ClientPacket::ConsignmentList => {
            replies.push(ServerPacket::ConsignmentResponse);
        },
        ClientPacket::UpdateGameGuide { page } => {
            replies.push(ServerPacket::GameGuideResponse { page });
        },
        _ => {},
    }
    (replies, event)
}

/// Draining a packet sequence: each packet routes against the buffer the one
/// before it left, and the replies and events come out in packet order.
pub open spec fn spec_drain_game(v: PlayerInputView, packets: Seq<ClientPacket>) -> (
    PlayerInputView,
    Seq<ServerPacket>,
    Seq<GameInputEvent>,
)
    decreases packets.len(),
{
    if packets.len() == 0 {
        (v, Seq::<ServerPacket>::empty(), Seq::<GameInputEvent>::empty())
    } else {
        let step = spec_route_game(v, packets[0]);
        let rest = spec_drain_game(step.0, packets.drop_first());
        (
            rest.0,
            step.1 + rest.1,
            match step.2 {
                Some(e) => seq![e] + rest.2,
                None => rest.2,
            },
        )
    }
}

/// Drain one connection's in-game packets for a tick into its input buffer,
/// collecting the immediate replies and raised events in packet order, then
/// enforce the inactivity timeout: with any traffic the last-action stamp
/// moves to now; a connection silent for longer than the timeout is to be
/// disconnected.
pub fn receive_game_inputs(
    input: &mut PlayerInput,
    packets: Vec<ClientPacket>,
    last_action_ms: &mut u64,
    now_ms: u64,
    timeout_ms: u64,
) -> (r: (Vec<ServerPacket>, Vec<GameInputEvent>, bool))
    requires
        *old(last_action_ms) <= now_ms,
    ensures
        ({
            let drained = spec_drain_game(old(input)@, packets@);
            &&& final(input)@ == drained.0
            &&& r.0@ =~= drained.1
            &&& r.1@ =~= drained.2
        }),
        *final(last_action_ms) == if packets@.len() > 0 {
            now_ms
        } else {
            *old(last_action_ms)
        },
        // the third result says whether the connection timed out
        r.2 == (now_ms - *final(last_action_ms) > timeout_ms),
{
    let ghost all = packets@;
    let ghost v0 = old(input)@;
    let mut replies: Vec<ServerPacket> = Vec::new();
    let mut events: Vec<GameInputEvent> = Vec::new();
    let had_action = packets.len() > 0;
    let mut packets = packets;
    while packets.len() > 0
        invariant
            *last_action_ms <= now_ms,
            spec_drain_game(v0, all).0 == spec_drain_game(input@, packets@).0,
            spec_drain_game(v0, all).1 =~= replies@ + spec_drain_game(input@, packets@).1,
            spec_drain_game(v0, all).2 =~= events@ + spec_drain_game(input@, packets@).2,
        decreases packets@.len(),
    {
        let ghost before = packets@;
        let packet = packets.remove(0);
        proof {
            assert(before.remove(0) =~= before.drop_first());
        }
        let (mut reply, event) = route_game_packet(input, packet);
        replies.append(&mut reply);
        if let Some(e) = event {
            events.push(e);
        }
    }
    proof {
        assert(spec_drain_game(input@, packets@).1 =~= Seq::<ServerPacket>::empty());
        assert(spec_drain_game(input@, packets@).2 =~= Seq::<GameInputEvent>::empty());
        assert(replies@ =~= spec_drain_game(v0, all).1);
        assert(events@ =~= spec_drain_game(v0, all).2);
    }
    if had_action {
        *last_action_ms = now_ms;
    }
    let timed_out = now_ms - *last_action_ms > timeout_ms;
    (replies, events, timed_out)
}

/// Where one character-select packet goes: the buffer after it and the
/// immediate replies; an identity request is answered at once.
pub open spec fn spec_route_login(v: LoginInputView, packet: ClientPacket) -> (
    LoginInputView,
    Seq<ServerPacket>,
) {
    match packet {
        ClientPacket::CharacterListRequest { action } => (
            LoginInputView { list: v.list.push(action), ..v },
            Seq::<ServerPacket>::empty(),
        ),
        ClientPacket::CharacterJoinRequest { character_name } => (
            LoginInputView { join: Some(character_name), ..v },
            Seq::<ServerPacket>::empty(),
        ),
        ClientPacket::AuthRequest { token, username, password } => (
            LoginInputView { auth: Some((token, username, password)), ..v },
            Seq::<ServerPacket>::empty(),
        ),
        ClientPacket::IdentityInformation { .. } => (
            v,
            seq![
                ServerPacket::IdentityInformation {
                    module_name: ModuleName::AgentServer,
                    locality: 0u8,
                },
            ],
        ),
        _ => (v, Seq::<ServerPacket>::empty()),
    }
}

/// Route one character-select packet into the login input buffer.
pub fn route_login_packet(input: &mut LoginInput, packet: ClientPacket) -> (r: Vec<ServerPacket>)
    ensures
        ({
            let step = spec_route_login(old(input)@, packet);
            &&& final(input)@ == step.0
            &&& r@ =~= step.1
        }),
{
    let mut replies: Vec<ServerPacket> = Vec::new();
    match packet {
        ClientPacket::CharacterListRequest { action } => {
            input.list.push(action);
        },
        ClientPacket::CharacterJoinRequest { character_name } => {
            input.join = Some(character_name);
        },
        ClientPacket::AuthRequest { token, username, password } => {
            input.auth = Some((token, username, password));
        },
        ClientPacket::IdentityInformation { .. } => {
            replies.push(
                ServerPacket::IdentityInformation {
                    module_name: ModuleName::AgentServer,
                    locality: 0,
                },
            );
        },
        _ => {},
    }
    replies
}

/// Draining character-select packets, like the in-game drain.
pub open spec fn spec_drain_login(v: LoginInputView, packets: Seq<ClientPacket>) -> (
    LoginInputView,
    Seq<ServerPacket>,
)
    decreases packets.len(),
{
    if packets.len() == 0 {
        (v, Seq::<ServerPacket>::empty())
    } else {
        let step = spec_route_login(v, packets[0]);
        let rest = spec_drain_login(step.0, packets.drop_first());
        (rest.0, step.1 + rest.1)
    }
}

/// Drain one connection's character-select packets for a tick, then enforce
/// the inactivity timeout as the in-game drain does.
pub fn receive_login_inputs(
    input: &mut LoginInput,
    packets: Vec<ClientPacket>,
    last_action_ms: &mut u64,
    now_ms: u64,
    timeout_ms: u64,
) -> (r: (Vec<ServerPacket>, bool))
    requires
        *old(last_action_ms) <= now_ms,
    ensures
        ({
            let drained = spec_drain_login(old(input)@, packets@);
            &&& final(input)@ == drained.0
            &&& r.0@ =~= drained.1
        }),
        *final(last_action_ms) == if packets@.len() > 0 {
            now_ms
        } else {
            *old(last_action_ms)
        },
        r.1 == (now_ms - *final(last_action_ms) > timeout_ms),
{
    let ghost all = packets@;
    let ghost v0 = old(input)@;
    let mut replies: Vec<ServerPacket> = Vec::new();
    let had_action = packets.len() > 0;
    let mut packets = packets;
    while packets.len() > 0
        invariant
            *last_action_ms <= now_ms,
            spec_drain_login(v0, all).0 == spec_drain_login(input@, packets@).0,
            spec_drain_login(v0, all).1 =~= replies@ + spec_drain_login(input@, packets@).1,
        decreases packets@.len(),
    {
        let ghost before = packets@;
        let packet = packets.remove(0);
        proof {
            assert(before.remove(0) =~= before.drop_first());
        }
        let mut reply = route_login_packet(input, packet);
        replies.append(&mut reply);
    }
    proof {
        assert(spec_drain_login(input@, packets@).1 =~= Seq::<ServerPacket>::empty());
        assert(replies@ =~= spec_drain_login(v0, all).1);
    }
    if had_action {
        *last_action_ms = now_ms;
    }
    let timed_out = now_ms - *last_action_ms > timeout_ms;
    (replies, timed_out)
}

} // verus!
