//! The lobby phase of a LAN game: the packets of the game client are
//! answered until every player is known to it and the relay node starts
//! the game.

use crate::error::Error;
use crate::lan::game::slot::{LanSlotPlayerInfo, LanSlotPlayerInfoView, SlotInfo, SlotInfoView};
use crate::lan::game::{LanGameInfo, LanGameInfoView};
use crate::types::{NodeGameStatus, SlotClientStatus};
use vstd::prelude::*;
use vstd::string::*;

verus! {

/// Name under which the stream observer is shown.
pub const OBSERVER_NAME: &'static str = "FLO";

/// What the host answers to any chat line in the lobby.
pub const CHAT_DISABLED_NOTICE: &'static str = "Setting changes and chat are disabled.";

/// How the lobby phase ended.
#[derive(Debug, Clone, Copy, PartialEq, Eq, Structural)]
pub enum LobbyAction {
    /// The countdown is over: the game begins.
    Start,
    /// The lobby is torn down from outside.
    Leave,
}

/// The kind of message inside a protobuf payload packet.
#[derive(Debug, Clone, Copy, PartialEq, Eq, Structural)]
pub enum ProtoBufMessageTypeId {
    Unknown2,
    PlayerProfile,
    PlayerSkins,
    PlayerUnknown5,
    UnknownValue(u32),
}

/// The address of the game client's socket.
#[derive(Debug, Clone, Copy, PartialEq, Eq, Structural)]
pub enum ClientAddr {
    /// An IPv4 address, its four bytes in network order in one number,
    /// and the port.
    V4 { ip: u32, port: u16 },
    V6,
}

/// An IPv4 socket address.
#[derive(Debug, Clone, Copy, PartialEq, Eq, Structural)]
pub struct SockAddrV4 {
    /// The four bytes of the address, in network order, in one number.
    pub ip: u32,
    pub port: u16,
}

/// A packet from the game client, as far as the lobby reads it.
#[derive(Debug, Clone, PartialEq, Eq)]
pub enum ClientPacket {
    ReqJoin,
    MapSize,
    ChatToHost,
    /// Answer to a ping; holds the payload of the ping it answers.
    PongToHost { payload: u32 },
    /// A protobuf message; `raw` is the packet's body as it came.
    ProtoBufPayload { type_id: ProtoBufMessageTypeId, raw: Vec<u8> },
    LeaveReq,
    /// Any other packet; holds its type id.
    Other { type_id: u8 },
}

/// A packet for the game client.
#[derive(Debug, Clone, PartialEq, Eq)]
pub enum HostPacket {
    SlotInfoJoin { slot_info: SlotInfo, player_id: u8, external_addr: SockAddrV4 },
    SlotInfo(SlotInfo),
    PlayerInfo { player_id: u8, name: String },
    /// The skins of a player, all unset.
    PlayerSkins { player_id: u32 },
    PlayerProfile { player_id: u8, name: String },
    MapCheck { file_size: u32, crc32: u32, game_settings: Vec<u8> },
    ChatFromHost { from_player: u8, to_players: Vec<u8>, message: String },
    PingFromHost { payload: u32 },
    CountDownStart,
    CountDownEnd,
    /// A protobuf message of the client, sent back as it came.
    ProtoBufPayload { type_id: ProtoBufMessageTypeId, raw: Vec<u8> },
}

/// What a packet for the game client is, in contracts.
pub enum HostPacketView {
    SlotInfoJoin { slot_info: SlotInfoView, player_id: u8, external_addr: SockAddrV4 },
    SlotInfo(SlotInfoView),
    PlayerInfo { player_id: u8, name: Seq<char> },
    PlayerSkins { player_id: u32 },
    PlayerProfile { player_id: u8, name: Seq<char> },
    MapCheck { file_size: u32, crc32: u32, game_settings: Seq<u8> },
    ChatFromHost { from_player: u8, to_players: Seq<u8>, message: Seq<char> },
    PingFromHost { payload: u32 },
    CountDownStart,
    CountDownEnd,
    ProtoBufPayload { type_id: ProtoBufMessageTypeId, raw: Seq<u8> },
}

impl View for HostPacket {
    type V = HostPacketView;

    open spec fn view(&self) -> HostPacketView {
        match self {
            HostPacket::SlotInfoJoin { slot_info, player_id, external_addr } => HostPacketView::SlotInfoJoin {
                slot_info: slot_info@,
                player_id: *player_id,
                external_addr: *external_addr,
            },
            HostPacket::SlotInfo(slot_info) => HostPacketView::SlotInfo(slot_info@),
            HostPacket::PlayerInfo { player_id, name } => HostPacketView::PlayerInfo {
                player_id: *player_id,
                name: name@,
            },
            HostPacket::PlayerSkins { player_id } => HostPacketView::PlayerSkins {
                player_id: *player_id,
            },
            HostPacket::PlayerProfile { player_id, name } => HostPacketView::PlayerProfile {
                player_id: *player_id,
                name: name@,
            },
            HostPacket::MapCheck { file_size, crc32, game_settings } => HostPacketView::MapCheck {
                file_size: *file_size,
                crc32: *crc32,
                game_settings: game_settings@,
            },
            HostPacket::ChatFromHost { from_player, to_players, message } => HostPacketView::ChatFromHost {
                from_player: *from_player,
                to_players: to_players@,
                message: message@,
            },
            HostPacket::PingFromHost { payload } => HostPacketView::PingFromHost {
                payload: *payload,
            },
            HostPacket::CountDownStart => HostPacketView::CountDownStart,
            HostPacket::CountDownEnd => HostPacketView::CountDownEnd,
            HostPacket::ProtoBufPayload { type_id, raw } => HostPacketView::ProtoBufPayload {
                type_id: *type_id,
                raw: raw@,
            },
        }
    }
}

/// The views of a list of packets, in order.
pub open spec fn packet_views(packets: Seq<HostPacket>) -> Seq<HostPacketView> {
    Seq::new(packets.len(), |i: int| packets[i]@)
}

/// What a packet from the game client is, in contracts.
pub enum ClientPacketView {
    ReqJoin,
    MapSize,
    ChatToHost,
    PongToHost { payload: u32 },
    ProtoBufPayload { type_id: ProtoBufMessageTypeId, raw: Seq<u8> },
    LeaveReq,
    Other { type_id: u8 },
}

impl View for ClientPacket {
    type V = ClientPacketView;

    open spec fn view(&self) -> ClientPacketView {
        match self {
            ClientPacket::ReqJoin => ClientPacketView::ReqJoin,
            ClientPacket::MapSize => ClientPacketView::MapSize,
            ClientPacket::ChatToHost => ClientPacketView::ChatToHost,
            ClientPacket::PongToHost { payload } => ClientPacketView::PongToHost {
                payload: *payload,
            },
            ClientPacket::ProtoBufPayload { type_id, raw } => ClientPacketView::ProtoBufPayload {
                type_id: *type_id,
                raw: raw@,
            },
            ClientPacket::LeaveReq => ClientPacketView::LeaveReq,
            ClientPacket::Other { type_id } => ClientPacketView::Other { type_id: *type_id },
        }
    }
}

/// The join packets that the game client has sent so far, and the last
/// status of the game on the relay node.
#[derive(Debug, PartialEq, Eq)]
pub struct JoinPacketRecvState {
    total_players: usize,
    num_profile: usize,
    num_skins: usize,
    num_unk5: usize,
    status: Option<NodeGameStatus>,
}

/// What the join state is, in contracts.
pub struct JoinStateView {
    pub total_players: usize,
    pub num_profile: usize,
    pub num_skins: usize,
    pub num_unk5: usize,
    pub status: Option<NodeGameStatus>,
}

impl JoinStateView {
    /// No counter is above what the game client owes: a profile for each
    /// player, one skins message, one message of the fifth kind.
    pub open spec fn wf(self) -> bool {
        self.num_profile <= self.total_players && self.num_skins <= 1 && self.num_unk5 <= 1
    }

    /// The state before any packet.
    pub open spec fn initial(status: Option<NodeGameStatus>, total_players: usize) -> JoinStateView {
        JoinStateView { total_players, num_profile: 0, num_skins: 0, num_unk5: 0, status }
    }

    /// The game client has sent every join packet.
    pub open spec fn is_ready(self) -> bool {
        self.num_profile == self.total_players && self.num_skins == 1 && self.num_unk5 == 1
    }

    /// The game client is ready and the relay node has started the game.
    pub open spec fn should_start(self) -> bool {
        self.is_ready() && match self.status {
            Some(status) => status.spec_has_started(),
            None => false,
        }
    }

    /// The state after one more protobuf message of the given kind. A
    /// message is counted while its counter is below what the game client
    /// owes; one beyond that leaves the state as it is.
    pub open spec fn record(self, type_id: ProtoBufMessageTypeId) -> JoinStateView {
        match type_id {
            ProtoBufMessageTypeId::PlayerProfile => if self.num_profile < self.total_players {
                JoinStateView { num_profile: (self.num_profile + 1) as usize, ..self }
            } else {
                self
            },
            ProtoBufMessageTypeId::PlayerSkins => if self.num_skins < 1 {
                JoinStateView { num_skins: (self.num_skins + 1) as usize, ..self }
            } else {
                self
            },
            ProtoBufMessageTypeId::PlayerUnknown5 => if self.num_unk5 < 1 {
                JoinStateView { num_unk5: (self.num_unk5 + 1) as usize, ..self }
            } else {
                self
            },
            _ => self,
        }
    }

    /// The state after the relay node reported a status.
    pub open spec fn with_status(self, status: NodeGameStatus) -> JoinStateView {
        JoinStateView { status: Some(status), ..self }
    }
}

impl View for JoinPacketRecvState {
    type V = JoinStateView;

    closed spec fn view(&self) -> JoinStateView {
        JoinStateView {
            total_players: self.total_players,
            num_profile: self.num_profile,
            num_skins: self.num_skins,
            num_unk5: self.num_unk5,
            status: self.status,
        }
    }
}

impl JoinPacketRecvState {
    #[verifier::type_invariant]
    spec fn inv(self) -> bool {
        self@.wf()
    }

    /// The state of a lobby that has seen no packet yet.
    pub fn new(initial_game_state: Option<NodeGameStatus>, total_players: usize) -> (state: Self)
        ensures
            state@ == JoinStateView::initial(initial_game_state, total_players),
            state@.wf(),
    {
        JoinPacketRecvState {
            total_players,
            num_profile: 0,
            num_skins: 0,
            num_unk5: 0,
            status: initial_game_state,
        }
    }

    /// The four counters: the players that the game client owes a profile
    /// for, and the profiles, skins messages and messages of the fifth
    /// kind that it has sent. In every state that a program can hold they
    /// are within their bounds.
    pub fn counts(&self) -> (counts: (usize, usize, usize, usize))
        ensures
            self@.wf(),
            counts.0 == self@.total_players,
            counts.1 == self@.num_profile,
            counts.2 == self@.num_skins,
            counts.3 == self@.num_unk5,
            counts.1 <= counts.0,
            counts.2 <= 1,
            counts.3 <= 1,
    {
        proof {
            use_type_invariant(self);
        }
        (self.total_players, self.num_profile, self.num_skins, self.num_unk5)
    }

    /// The last status that the relay node reported.
    pub fn status(&self) -> (status: Option<NodeGameStatus>)
        ensures
            status == self@.status,
    {
        self.status
    }

    /// Whether the game client has sent every join packet.
    pub fn is_ready(&self) -> (ready: bool)
        ensures
            ready == self@.is_ready(),
    {
        self.num_profile == self.total_players && self.num_skins == 1 && self.num_unk5 == 1
    }

    /// Whether the lobby may leave for the game.
    pub fn should_start(&self) -> (start: bool)
        ensures
            start == self@.should_start(),
    {
        self.is_ready() && match self.status {
            Some(NodeGameStatus::Loading) => true,
            Some(NodeGameStatus::Running) => true,
            _ => false,
        }
    }

    /// Takes note of a protobuf message of the given kind.
    pub fn record(&mut self, type_id: ProtoBufMessageTypeId)
        ensures
            final(self)@ == old(self)@.record(type_id),
            final(self)@.wf(),
        no_unwind
    {
        proof {
            use_type_invariant(&*self);
        }
        match type_id {
            ProtoBufMessageTypeId::PlayerProfile => {
                if self.num_profile < self.total_players {
                    self.num_profile = self.num_profile + 1;
                }
            },
            ProtoBufMessageTypeId::PlayerSkins => {
                if self.num_skins < 1 {
                    self.num_skins = self.num_skins + 1;
                }
            },
            ProtoBufMessageTypeId::PlayerUnknown5 => {
                if self.num_unk5 < 1 {
                    self.num_unk5 = self.num_unk5 + 1;
                }
            },
            _ => {},
        }
    }

    /// Takes note of a status that the relay node reported.
    pub fn set_status(&mut self, status: NodeGameStatus)
        ensures
            final(self)@ == old(self)@.with_status(status),
        no_unwind
    {
        proof {
            use_type_invariant(&*self);
        }
        self.status = Some(status);
    }
}

/// The low 32 bits of a file size: what fits into a map check.
pub open spec fn spec_low_u32(size: usize) -> u32 {
    (size as int % 0x1_0000_0000) as u32
}

/// The low 32 bits of a file size.
pub fn low_u32(size: usize) -> (low: u32)
    ensures
        low == spec_low_u32(size),
{
    let wide: u64 = size as u64;
    (wide % 0x1_0000_0000) as u32
}

/// Tells the players other than `me`.
pub open spec fn is_peer(me: u8) -> spec_fn(LanSlotPlayerInfoView) -> bool {
    |p: LanSlotPlayerInfoView| p.slot_player_id != me
}

/// The packet that introduces a player.
pub open spec fn player_info_packet() -> spec_fn(LanSlotPlayerInfoView) -> HostPacketView {
    |p: LanSlotPlayerInfoView|
        HostPacketView::PlayerInfo { player_id: p.slot_player_id, name: p.name }
}

/// The packet with a player's skins, all unset.
pub open spec fn player_skins_packet() -> spec_fn(LanSlotPlayerInfoView) -> HostPacketView {
    |p: LanSlotPlayerInfoView| HostPacketView::PlayerSkins { player_id: p.slot_player_id as u32 }
}

/// The packet with a player's profile.
pub open spec fn player_profile_packet() -> spec_fn(LanSlotPlayerInfoView) -> HostPacketView {
    |p: LanSlotPlayerInfoView|
        HostPacketView::PlayerProfile { player_id: p.slot_player_id, name: p.name }
}

/// The three packets that present the stream observer, where the game has
/// one.
pub open spec fn observer_packets(ob_player_id: Option<u8>) -> Seq<HostPacketView> {
    match ob_player_id {
        Some(id) => seq![
            HostPacketView::PlayerInfo { player_id: id, name: OBSERVER_NAME@ },
            HostPacketView::PlayerSkins { player_id: id as u32 },
            HostPacketView::PlayerProfile { player_id: id, name: OBSERVER_NAME@ },
        ],
        None => Seq::empty(),
    }
}

/// The answer to a join request, in the order in which it is written: the
/// slot table with the client's own address, the slot table again, every
/// other player, their skins, every player's profile, the stream observer,
/// and the map check.
pub open spec fn spec_join_reply(info: LanGameInfoView, addr: SockAddrV4) -> Seq<HostPacketView> {
    let slots = info.slot_info;
    let peers = slots.player_infos.filter(is_peer(slots.my_slot_player_id));
    seq![
        HostPacketView::SlotInfoJoin {
            slot_info: slots.slot_info,
            player_id: slots.my_slot_player_id,
            external_addr: addr,
        },
        HostPacketView::SlotInfo(slots.slot_info),
    ] + peers.map_values(player_info_packet()) + peers.map_values(player_skins_packet())
        + slots.player_infos.map_values(player_profile_packet()) + observer_packets(
        slots.ob_player_id(),
    ) + seq![
        HostPacketView::MapCheck {
            file_size: spec_low_u32(info.map_checksum.file_size),
            crc32: info.map_checksum.crc32,
            game_settings: info.game_settings,
        },
    ]
}

/// Filtering one element more of a sequence keeps or drops that element.
proof fn lemma_filter_take_step<A>(s: Seq<A>, pred: spec_fn(A) -> bool, i: int)
    requires
        0 <= i < s.len(),
    ensures
        s.take(i + 1).filter(pred) == if pred(s[i]) {
            s.take(i).filter(pred).push(s[i])
        } else {
            s.take(i).filter(pred)
        },
{
    reveal(Seq::filter);
    let t = s.take(i + 1);
    assert(t.drop_last() =~= s.take(i));
    assert(t.last() == s[i]);
}

/// Mapping a sequence with one element more maps that element last.
proof fn lemma_map_values_push<A, B>(s: Seq<A>, f: spec_fn(A) -> B, x: A)
    ensures
        s.push(x).map_values(f) == s.map_values(f).push(f(x)),
{
    assert(s.push(x).map_values(f) =~= s.map_values(f).push(f(x)));
}

/// The views of a list with one packet more.
proof fn lemma_packet_views_push(packets: Seq<HostPacket>, packet: HostPacket)
    ensures
        packet_views(packets.push(packet)) == packet_views(packets).push(packet@),
{
    assert(packet_views(packets.push(packet)) =~= packet_views(packets).push(packet@));
}

/// The views of two lists, one after the other.
proof fn lemma_packet_views_add(a: Seq<HostPacket>, b: Seq<HostPacket>)
    ensures
        packet_views(a + b) == packet_views(a) + packet_views(b),
{
    assert(packet_views(a + b) =~= packet_views(a) + packet_views(b));
}

/// Builds the answer to a join request.
pub fn join_reply(info: &LanGameInfo, addr: SockAddrV4) -> (replies: Vec<HostPacket>)
    ensures
        packet_views(replies@) == spec_join_reply(info@, addr),
{
    let slots = &info.slot_info;
    let me = slots.my_slot_player_id();
    let players = slots.player_infos();
    let ghost pv = info@.slot_info.player_infos;
    let mut replies: Vec<HostPacket> = Vec::new();
    replies.push(
        HostPacket::SlotInfoJoin {
            slot_info: slots.slot_info().duplicate(),
            player_id: me,
            external_addr: addr,
        },
    );
    replies.push(HostPacket::SlotInfo(slots.slot_info().duplicate()));
    assert(packet_views(replies@) =~= seq![
        HostPacketView::SlotInfoJoin {
            slot_info: info@.slot_info.slot_info,
            player_id: me,
            external_addr: addr,
        },
        HostPacketView::SlotInfo(info@.slot_info.slot_info),
    ]);

    let mut player_info_packets: Vec<HostPacket> = Vec::new();
    let mut player_skin_packets: Vec<HostPacket> = Vec::new();
    let mut player_profile_packets: Vec<HostPacket> = Vec::new();
    assert(packet_views(player_info_packets@) =~= pv.take(0).filter(is_peer(me)).map_values(
        player_info_packet(),
    ));
    assert(packet_views(player_skin_packets@) =~= pv.take(0).filter(is_peer(me)).map_values(
        player_skins_packet(),
    ));
    assert(packet_views(player_profile_packets@) =~= pv.take(0).map_values(
        player_profile_packet(),
    ));
    let mut i: usize = 0;
    while i < players.len()
        invariant
            i <= players@.len(),
            pv == crate::lan::game::slot::player_info_views(players@),
            packet_views(player_info_packets@) == pv.take(i as int).filter(
                is_peer(me),
            ).map_values(player_info_packet()),
            packet_views(player_skin_packets@) == pv.take(i as int).filter(
                is_peer(me),
            ).map_values(player_skins_packet()),
            packet_views(player_profile_packets@) == pv.take(i as int).map_values(
                player_profile_packet(),
            ),
        decreases players@.len() - i,
    {
        let player = &players[i];
        proof {
            assert(pv[i as int] == player@);
            lemma_filter_take_step(pv, is_peer(me), i as int);
            assert(pv.take(i + 1) =~= pv.take(i as int).push(pv[i as int]));
            lemma_map_values_push(pv.take(i as int), player_profile_packet(), pv[i as int]);
        }
        if player.slot_player_id != me {
            let ghost peers = pv.take(i as int).filter(is_peer(me));
            proof {
                lemma_map_values_push(peers, player_info_packet(), pv[i as int]);
                lemma_map_values_push(peers, player_skins_packet(), pv[i as int]);
            }
            let info_packet = HostPacket::PlayerInfo {
                player_id: player.slot_player_id,
                name: player.name.clone(),
            };
            proof {
                lemma_packet_views_push(player_info_packets@, info_packet);
            }
            player_info_packets.push(info_packet);
            let skins_packet = HostPacket::PlayerSkins { player_id: player.slot_player_id as u32 };
            proof {
                lemma_packet_views_push(player_skin_packets@, skins_packet);
            }
            player_skin_packets.push(skins_packet);
        }
        let profile_packet = HostPacket::PlayerProfile {
            player_id: player.slot_player_id,
            name: player.name.clone(),
        };
        proof {
            lemma_packet_views_push(player_profile_packets@, profile_packet);
        }
        player_profile_packets.push(profile_packet);
        i = i + 1;
    }
    assert(pv.take(i as int) =~= pv);

    let mut observer: Vec<HostPacket> = Vec::new();
    match slots.ob_player_id() {
        Some(id) => {
            observer.push(
                HostPacket::PlayerInfo { player_id: id, name: String::from_str(OBSERVER_NAME) },
            );
            observer.push(HostPacket::PlayerSkins { player_id: id as u32 });
            observer.push(
                HostPacket::PlayerProfile { player_id: id, name: String::from_str(OBSERVER_NAME) },
            );
        },
        None => {},
    }
    assert(packet_views(observer@) =~= observer_packets(info@.slot_info.ob_player_id()));

    let map_check = HostPacket::MapCheck {
        file_size: low_u32(info.map_checksum.file_size),
        crc32: info.map_checksum.crc32,
        game_settings: info.game_settings.clone(),
    };
    proof {
        lemma_packet_views_add(replies@, player_info_packets@);
        lemma_packet_views_add(replies@ + player_info_packets@, player_skin_packets@);
        lemma_packet_views_add(
            replies@ + player_info_packets@ + player_skin_packets@,
            player_profile_packets@,
        );
        lemma_packet_views_add(
            replies@ + player_info_packets@ + player_skin_packets@ + player_profile_packets@,
            observer@,
        );
        lemma_packet_views_push(
            replies@ + player_info_packets@ + player_skin_packets@ + player_profile_packets@
                + observer@,
            map_check,
        );
    }
    replies.append(&mut player_info_packets);
    replies.append(&mut player_skin_packets);
    replies.append(&mut player_profile_packets);
    replies.append(&mut observer);
    replies.push(map_check);
    assert(packet_views(replies@) =~= spec_join_reply(info@, addr));
    replies
}

/// Length of the countdown that the game client shows, in milliseconds.
pub const COUNTDOWN_MILLIS: u64 = 3000;

/// Pause after the countdown where nothing tells when the game client is
/// done with it, in milliseconds.
pub const COUNTDOWN_GRACE_MILLIS: u64 = 3000;

/// Longest wait for the game client to be done with its countdown, in
/// milliseconds.
pub const COUNTDOWN_NOTIFY_CEILING_MILLIS: u64 = 6000;

/// Time between two pings of the host, in milliseconds.
pub const LOBBY_PING_INTERVAL_MILLIS: u64 = 15000;

/// Told to the user when the game client has joined the lobby.
#[derive(Debug, Clone, PartialEq, Eq)]
pub struct LanGameJoined {
    pub lobby_name: String,
}

/// Something that happened while the lobby waits.
#[derive(Debug, Clone, PartialEq, Eq)]
pub enum LobbyEvent {
    /// The game client sent a packet.
    Packet(ClientPacket),
    /// The game client closed its connection.
    ClientClosed,
    /// It is time for a ping; holds the milliseconds since the lobby began.
    PingTick { elapsed_millis: u32 },
    /// The status of the game on the relay node was published anew.
    StatusChanged(Option<NodeGameStatus>),
    /// Nobody will publish the status of the game any more.
    StatusSourceDropped,
}

/// What an event is, in contracts.
pub enum LobbyEventView {
    Packet(ClientPacketView),
    ClientClosed,
    PingTick { elapsed_millis: u32 },
    StatusChanged(Option<NodeGameStatus>),
    StatusSourceDropped,
}

impl View for LobbyEvent {
    type V = LobbyEventView;

    open spec fn view(&self) -> LobbyEventView {
        match self {
            LobbyEvent::Packet(packet) => LobbyEventView::Packet(packet@),
            LobbyEvent::ClientClosed => LobbyEventView::ClientClosed,
            LobbyEvent::PingTick { elapsed_millis } => LobbyEventView::PingTick {
                elapsed_millis: *elapsed_millis,
            },
            LobbyEvent::StatusChanged(status) => LobbyEventView::StatusChanged(*status),
            LobbyEvent::StatusSourceDropped => LobbyEventView::StatusSourceDropped,
        }
    }
}

/// The views of a list of events, in order.
pub open spec fn event_views(events: Seq<LobbyEvent>) -> Seq<LobbyEventView> {
    Seq::new(events.len(), |i: int| events[i]@)
}

/// One thing that the program around the handler has to do, in the order
/// in which the handler gives them.
#[derive(Debug, Clone, PartialEq, Eq)]
pub enum LobbyStep {
    /// Write these packets to the game client in one piece.
    Send(Vec<HostPacket>),
    /// Tell the relay node the status of the local slot; a failure is of no
    /// account.
    ReportSlotStatus(SlotClientStatus),
    /// Tell the user that the game client has joined.
    Notify(LanGameJoined),
    /// Let this many milliseconds pass.
    Sleep { millis: u64 },
    /// Wait until the game client is done with its countdown, but no
    /// longer than this many milliseconds.
    WaitCountdown { ceiling_millis: u64 },
}

/// What a step is, in contracts.
pub enum LobbyStepView {
    Send(Seq<HostPacketView>),
    ReportSlotStatus(SlotClientStatus),
    Notify { lobby_name: Seq<char> },
    Sleep { millis: u64 },
    WaitCountdown { ceiling_millis: u64 },
}

impl View for LobbyStep {
    type V = LobbyStepView;

    open spec fn view(&self) -> LobbyStepView {
        match self {
            LobbyStep::Send(packets) => LobbyStepView::Send(packet_views(packets@)),
            LobbyStep::ReportSlotStatus(status) => LobbyStepView::ReportSlotStatus(*status),
            LobbyStep::Notify(joined) => LobbyStepView::Notify { lobby_name: joined.lobby_name@ },
            LobbyStep::Sleep { millis } => LobbyStepView::Sleep { millis: *millis },
            LobbyStep::WaitCountdown { ceiling_millis } => LobbyStepView::WaitCountdown {
                ceiling_millis: *ceiling_millis,
            },
        }
    }
}

/// The views of a list of steps, in order.
pub open spec fn step_views(steps: Seq<LobbyStep>) -> Seq<LobbyStepView> {
    Seq::new(steps.len(), |i: int| steps[i]@)
}

/// What the handler made of one event: the steps to take now, and how the
/// lobby ended if it did.
#[derive(Debug, PartialEq, Eq)]
pub struct LobbyOutcome {
    pub steps: Vec<LobbyStep>,
    pub action: Option<LobbyAction>,
}

/// What an outcome is, in contracts.
pub struct LobbyOutcomeView {
    pub steps: Seq<LobbyStepView>,
    pub action: Option<LobbyAction>,
}

impl View for LobbyOutcome {
    type V = LobbyOutcomeView;

    open spec fn view(&self) -> LobbyOutcomeView {
        LobbyOutcomeView { steps: step_views(self.steps@), action: self.action }
    }
}

/// The state of a lobby handler, in contracts.
pub struct LobbyHandlerView {
    pub info: LanGameInfoView,
    pub join: JoinStateView,
    /// The relay node and the user have been told that the client joined.
    pub reported: bool,
    /// The start sequence has been given out.
    pub starting: bool,
    /// There is a connection to the relay node to report to.
    pub node_stream: bool,
    /// There is somebody to tell user-facing messages to.
    pub outgoing: bool,
    /// Something will tell when the game client is done with its countdown.
    pub countdown_notify: bool,
}

/// The steps that carry packets to the game client, none where there is no
/// packet.
pub open spec fn send_steps(packets: Seq<HostPacketView>) -> Seq<LobbyStepView> {
    if packets.len() == 0 {
        Seq::empty()
    } else {
        seq![LobbyStepView::Send(packets)]
    }
}

impl LobbyHandlerView {
    /// The join state counts towards the players of this game, and stays
    /// within its bounds.
    pub open spec fn wf(self) -> bool {
        self.join.wf() && self.join.total_players == self.info.slot_info.total_players()
            && self.info.slot_info.wf()
    }

    /// The handler of a lobby that has seen no event yet.
    pub open spec fn initial(
        info: LanGameInfoView,
        status: Option<NodeGameStatus>,
        node_stream: bool,
        outgoing: bool,
        countdown_notify: bool,
    ) -> LobbyHandlerView {
        LobbyHandlerView {
            info,
            join: JoinStateView::initial(status, info.slot_info.total_players() as usize),
            reported: false,
            starting: false,
            node_stream,
            outgoing,
            countdown_notify,
        }
    }

    /// The start sequence: the slot table, the start of the countdown, the
    /// countdown itself, the wait for the game client to be done with it,
    /// and the end of the countdown.
    pub open spec fn start_sequence(self) -> Seq<LobbyStepView> {
        seq![
            LobbyStepView::Send(seq![HostPacketView::SlotInfo(self.info.slot_info.slot_info)]),
            LobbyStepView::Send(seq![HostPacketView::CountDownStart]),
            LobbyStepView::Sleep { millis: COUNTDOWN_MILLIS },
            if self.countdown_notify {
                LobbyStepView::WaitCountdown { ceiling_millis: COUNTDOWN_NOTIFY_CEILING_MILLIS }
            } else {
                LobbyStepView::Sleep { millis: COUNTDOWN_GRACE_MILLIS }
            },
            LobbyStepView::Send(seq![HostPacketView::CountDownEnd]),
        ]
    }

    /// What starting the game gives out: the start sequence the first
    /// time, nothing afterwards.
    pub open spec fn start_steps(self) -> Seq<LobbyStepView> {
        if self.starting {
            Seq::empty()
        } else {
            self.start_sequence()
        }
    }

    /// The handler after the game was started.
    pub open spec fn started(self) -> LobbyHandlerView {
        LobbyHandlerView { starting: true, ..self }
    }

    /// The packets that answer a packet of the game client, or the error
    /// that ends the lobby.
    pub open spec fn packet_reply(self, addr: ClientAddr, packet: ClientPacketView) -> Result<
        Seq<HostPacketView>,
        Error,
    > {
        match packet {
            ClientPacketView::ReqJoin => match addr {
                ClientAddr::V4 { ip, port } => Ok(spec_join_reply(self.info, SockAddrV4 { ip, port })),
                ClientAddr::V6 => Err(Error::Ipv6NotSupported),
            },
            ClientPacketView::MapSize => Ok(Seq::empty()),
            ClientPacketView::ChatToHost => Ok(
                seq![
                    HostPacketView::ChatFromHost {
                        from_player: self.info.slot_info.my_slot_player_id,
                        to_players: seq![self.info.slot_info.my_slot_player_id],
                        message: CHAT_DISABLED_NOTICE@,
                    },
                ],
            ),
            ClientPacketView::PongToHost { payload } => Ok(Seq::empty()),
            ClientPacketView::ProtoBufPayload { type_id, raw } => match type_id {
                ProtoBufMessageTypeId::PlayerProfile
                | ProtoBufMessageTypeId::PlayerSkins
                | ProtoBufMessageTypeId::PlayerUnknown5 => Ok(
                    seq![HostPacketView::ProtoBufPayload { type_id, raw }],
                ),
                _ => Ok(Seq::empty()),
            },
            ClientPacketView::LeaveReq => Ok(Seq::empty()),
            ClientPacketView::Other { type_id } => Err(Error::UnexpectedPacket(type_id)),
        }
    }

    /// The handler after a packet of the game client that was answered.
    pub open spec fn after_packet(self, packet: ClientPacketView) -> LobbyHandlerView {
        match packet {
            ClientPacketView::ProtoBufPayload { type_id, raw } => LobbyHandlerView {
                join: self.join.record(type_id),
                ..self
            },
            _ => self,
        }
    }

    /// What is told when the game client is found to have joined: the
    /// relay node hears of it, then the user, each once and only where
    /// there is somebody to tell.
    pub open spec fn report_steps(self) -> Seq<LobbyStepView> {
        if self.reported {
            Seq::empty()
        } else {
            (if self.node_stream {
                seq![LobbyStepView::ReportSlotStatus(SlotClientStatus::Joined)]
            } else {
                Seq::empty()
            }) + (if self.outgoing {
                seq![LobbyStepView::Notify { lobby_name: self.info.lobby_name() }]
            } else {
                Seq::empty()
            })
        }
    }

    /// The handler after one event, with what it gives out.
    pub open spec fn step(self, addr: ClientAddr, event: LobbyEventView) -> (
        LobbyHandlerView,
        Result<LobbyOutcomeView, Error>,
    ) {
        match event {
            LobbyEventView::Packet(ClientPacketView::LeaveReq) => (
                self,
                Ok(LobbyOutcomeView { steps: Seq::empty(), action: None }),
            ),
            LobbyEventView::Packet(packet) => match self.packet_reply(addr, packet) {
                Err(e) => (self, Err(e)),
                Ok(replies) => {
                    let answered = self.after_packet(packet);
                    if !answered.join.is_ready() {
                        (
                            answered,
                            Ok(LobbyOutcomeView { steps: send_steps(replies), action: None }),
                        )
                    } else {
                        let told = LobbyHandlerView { reported: true, ..answered };
                        let steps = send_steps(replies) + answered.report_steps();
                        if told.join.should_start() {
                            (
                                told.started(),
                                Ok(
                                    LobbyOutcomeView {
                                        steps: steps + told.start_steps(),
                                        action: Some(LobbyAction::Start),
                                    },
                                ),
                            )
                        } else {
                            (told, Ok(LobbyOutcomeView { steps, action: None }))
                        }
                    }
                },
            },
            LobbyEventView::ClientClosed => (self, Err(Error::StreamClosed)),
            LobbyEventView::PingTick { elapsed_millis } => (
                self,
                Ok(
                    LobbyOutcomeView {
                        steps: seq![
                            LobbyStepView::Send(
                                seq![HostPacketView::PingFromHost { payload: elapsed_millis }],
                            ),
                        ],
                        action: None,
                    },
                ),
            ),
            LobbyEventView::StatusChanged(Some(status)) => {
                let seen = LobbyHandlerView { join: self.join.with_status(status), ..self };
                if seen.join.should_start() {
                    (
                        seen.started(),
                        Ok(
                            LobbyOutcomeView {
                                steps: seen.start_steps(),
                                action: Some(LobbyAction::Start),
                            },
                        ),
                    )
                } else {
                    (seen, Ok(LobbyOutcomeView { steps: Seq::empty(), action: None }))
                }
            },
            LobbyEventView::StatusChanged(None) => (
                self,
                Ok(LobbyOutcomeView { steps: Seq::empty(), action: None }),
            ),
            LobbyEventView::StatusSourceDropped => (self, Err(Error::TaskCancelled)),
        }
    }
}

/// What a run of the handler over a list of events gave: every step, in
/// order, and how the lobby ended, if it did.
#[derive(Debug, PartialEq, Eq)]
pub struct LobbyRun {
    pub steps: Vec<LobbyStep>,
    pub result: Option<Result<LobbyAction, Error>>,
}

/// What a run is, in contracts.
pub struct LobbyRunView {
    pub handler: LobbyHandlerView,
    pub steps: Seq<LobbyStepView>,
    pub result: Option<Result<LobbyAction, Error>>,
}

impl LobbyHandlerView {
    /// The handler takes the events one after the other, until one ends
    /// the lobby, with an action or with an error, or until none is left.
    pub open spec fn run(self, addr: ClientAddr, events: Seq<LobbyEventView>) -> LobbyRunView
        decreases events.len(),
    {
        if events.len() == 0 {
            LobbyRunView { handler: self, steps: Seq::empty(), result: None }
        } else {
            let (next, outcome) = self.step(addr, events[0]);
            match outcome {
                Err(e) => LobbyRunView { handler: next, steps: Seq::empty(), result: Some(Err(e)) },
                Ok(outcome) => match outcome.action {
                    Some(action) => LobbyRunView {
                        handler: next,
                        steps: outcome.steps,
                        result: Some(Ok(action)),
                    },
                    None => {
                        let rest = next.run(addr, events.skip(1));
                        LobbyRunView {
                            handler: rest.handler,
                            steps: outcome.steps + rest.steps,
                            result: rest.result,
                        }
                    },
                },
            }
        }
    }
}

/// The views of a list with one step more.
proof fn lemma_step_views_push(steps: Seq<LobbyStep>, step: LobbyStep)
    ensures
        step_views(steps.push(step)) == step_views(steps).push(step@),
{
    assert(step_views(steps.push(step)) =~= step_views(steps).push(step@));
}

/// The views of two lists of steps, one after the other.
proof fn lemma_step_views_add(a: Seq<LobbyStep>, b: Seq<LobbyStep>)
    ensures
        step_views(a + b) == step_views(a) + step_views(b),
{
    assert(step_views(a + b) =~= step_views(a) + step_views(b));
}

/// Drives the game client through the lobby of one game. The handler does
/// no input or output itself: it is told what happened and says what to do.
#[derive(Debug, PartialEq, Eq)]
pub struct LobbyHandler<'a> {
    info: &'a LanGameInfo,
    join_state: JoinPacketRecvState,
    reported: bool,
    starting: bool,
    node_stream: bool,
    outgoing: bool,
    countdown_notify: bool,
}

impl<'a> View for LobbyHandler<'a> {
    type V = LobbyHandlerView;

    closed spec fn view(&self) -> LobbyHandlerView {
        LobbyHandlerView {
            info: self.info@,
            join: self.join_state@,
            reported: self.reported,
            starting: self.starting,
            node_stream: self.node_stream,
            outgoing: self.outgoing,
            countdown_notify: self.countdown_notify,
        }
    }
}

impl<'a> LobbyHandler<'a> {
    #[verifier::type_invariant]
    spec fn inv(self) -> bool {
        self@.wf()
    }

    /// A handler for the lobby of the game `info`. `initial_status` is the
    /// status of the game on the relay node as it is known now; the three
    /// flags say whether there is a relay node to report to, somebody to
    /// tell user-facing messages to, and something that tells when the
    /// game client is done with its countdown.
    pub fn new(
        info: &'a LanGameInfo,
        initial_status: Option<NodeGameStatus>,
        node_stream: bool,
        outgoing: bool,
        countdown_notify: bool,
    ) -> (handler: Self)
        ensures
            handler@ == LobbyHandlerView::initial(
                info@,
                initial_status,
                node_stream,
                outgoing,
                countdown_notify,
            ),
            handler@.wf(),
    {
        let total_players = info.slot_info.total_players();
        LobbyHandler {
            info,
            join_state: JoinPacketRecvState::new(initial_status, total_players),
            reported: false,
            starting: false,
            node_stream,
            outgoing,
            countdown_notify,
        }
    }

    /// The join state, as it is now.
    pub fn join_state(&self) -> (state: &JoinPacketRecvState)
        ensures
            state@ == self@.join,
            self@.wf(),
    {
        proof {
            use_type_invariant(self);
        }
        &self.join_state
    }

    /// Whether the start sequence has been given out.
    pub fn is_starting(&self) -> (starting: bool)
        ensures
            starting == self@.starting,
    {
        self.starting
    }

    /// Whether the relay node and the user have been told that the game
    /// client joined.
    pub fn has_reported(&self) -> (reported: bool)
        ensures
            reported == self@.reported,
    {
        self.reported
    }

    /// Starts the game: gives out the start sequence the first time, and
    /// nothing on any later call.
    pub fn send_start(&mut self) -> (steps: Vec<LobbyStep>)
        ensures
            step_views(steps@) == old(self)@.start_steps(),
            final(self)@ == old(self)@.started(),
            final(self)@.wf(),
    {
        proof {
            use_type_invariant(&*self);
        }
        let mut steps: Vec<LobbyStep> = Vec::new();
        if self.starting {
            assert(step_views(steps@) =~= Seq::empty());
            return steps;
        }
        self.starting = true;
        let mut table: Vec<HostPacket> = Vec::new();
        table.push(HostPacket::SlotInfo(self.info.slot_info.slot_info().duplicate()));
        assert(packet_views(table@) =~= seq![
            HostPacketView::SlotInfo(self.info@.slot_info.slot_info),
        ]);
        steps.push(LobbyStep::Send(table));
        let mut begin: Vec<HostPacket> = Vec::new();
        begin.push(HostPacket::CountDownStart);
        assert(packet_views(begin@) =~= seq![HostPacketView::CountDownStart]);
        steps.push(LobbyStep::Send(begin));
        steps.push(LobbyStep::Sleep { millis: COUNTDOWN_MILLIS });
        if self.countdown_notify {
            steps.push(LobbyStep::WaitCountdown { ceiling_millis: COUNTDOWN_NOTIFY_CEILING_MILLIS });
        } else {
            steps.push(LobbyStep::Sleep { millis: COUNTDOWN_GRACE_MILLIS });
        }
        let mut end: Vec<HostPacket> = Vec::new();
        end.push(HostPacket::CountDownEnd);
        assert(packet_views(end@) =~= seq![HostPacketView::CountDownEnd]);
        steps.push(LobbyStep::Send(end));
        assert(step_views(steps@) =~= old(self)@.start_sequence());
        steps
    }

    /// Answers one packet of the game client: returns the packets to write
    /// back, in one piece, and takes note of the join packets among them.
    /// An error ends the lobby and leaves the handler as it was.
    pub fn handle_packet(&mut self, addr: ClientAddr, packet: ClientPacket) -> (result: Result<
        Vec<HostPacket>,
        Error,
    >)
        ensures
            match result {
                Ok(replies) => old(self)@.packet_reply(addr, packet@) == Ok::<
                    Seq<HostPacketView>,
                    Error,
                >(packet_views(replies@)) && final(self)@ == old(self)@.after_packet(packet@),
                Err(e) => old(self)@.packet_reply(addr, packet@) == Err::<
                    Seq<HostPacketView>,
                    Error,
                >(e) && final(self)@ == old(self)@,
            },
            final(self)@.wf(),
    {
        proof {
            use_type_invariant(&*self);
        }
        let mut replies: Vec<HostPacket> = Vec::new();
        assert(packet_views(replies@) =~= Seq::empty());
        match packet {
            ClientPacket::ReqJoin => match addr {
                ClientAddr::V4 { ip, port } => Ok(join_reply(self.info, SockAddrV4 { ip, port })),
                ClientAddr::V6 => Err(Error::Ipv6NotSupported),
            },
            ClientPacket::MapSize => Ok(replies),
            ClientPacket::ChatToHost => {
                let me = self.info.slot_info.my_slot_player_id();
                let mut to_players: Vec<u8> = Vec::new();
                to_players.push(me);
                assert(to_players@ =~= seq![me]);
                replies.push(
                    HostPacket::ChatFromHost {
                        from_player: me,
                        to_players,
                        message: String::from_str(CHAT_DISABLED_NOTICE),
                    },
                );
                assert(packet_views(replies@) =~= seq![
                    HostPacketView::ChatFromHost {
                        from_player: me,
                        to_players: seq![me],
                        message: CHAT_DISABLED_NOTICE@,
                    },
                ]);
                Ok(replies)
            },
            ClientPacket::PongToHost { payload } => Ok(replies),
            ClientPacket::ProtoBufPayload { type_id, raw } => {
                match type_id {
                    ProtoBufMessageTypeId::PlayerProfile
                    | ProtoBufMessageTypeId::PlayerSkins
                    | ProtoBufMessageTypeId::PlayerUnknown5 => {
                        self.join_state.record(type_id);
                        replies.push(HostPacket::ProtoBufPayload { type_id, raw });
                        assert(packet_views(replies@) =~= seq![
                            HostPacketView::ProtoBufPayload { type_id, raw: raw@ },
                        ]);
                    },
                    _ => {},
                }
                Ok(replies)
            },
            ClientPacket::LeaveReq => Ok(replies),
            ClientPacket::Other { type_id } => Err(Error::UnexpectedPacket(type_id)),
        }
    }

    /// Takes one event and says what to do about it. With an action in the
    /// outcome, or with an error, the lobby is over.
    pub fn step(&mut self, addr: ClientAddr, event: LobbyEvent) -> (result: Result<
        LobbyOutcome,
        Error,
    >)
        ensures
            final(self)@ == old(self)@.step(addr, event@).0,
            match result {
                Ok(outcome) => old(self)@.step(addr, event@).1 == Ok::<LobbyOutcomeView, Error>(
                    outcome@,
                ),
                Err(e) => old(self)@.step(addr, event@).1 == Err::<LobbyOutcomeView, Error>(e),
            },
            final(self)@.wf(),
    {
        proof {
            use_type_invariant(&*self);
        }
        let mut steps: Vec<LobbyStep> = Vec::new();
        assert(step_views(steps@) =~= Seq::empty());
        match event {
            LobbyEvent::Packet(ClientPacket::LeaveReq) => Ok(LobbyOutcome { steps, action: None }),
            LobbyEvent::Packet(packet) => {
                let replies = match self.handle_packet(addr, packet) {
                    Ok(replies) => replies,
                    Err(e) => {
                        return Err(e);
                    },
                };
                let ghost answered = self@;
                let ghost replies_view = packet_views(replies@);
                if replies.len() > 0 {
                    proof {
                        lemma_step_views_push(steps@, LobbyStep::Send(replies));
                    }
                    steps.push(LobbyStep::Send(replies));
                }
                assert(step_views(steps@) =~= send_steps(replies_view));
                if self.join_state.is_ready() {
                    if !self.reported {
                        if self.node_stream {
                            proof {
                                lemma_step_views_push(
                                    steps@,
                                    LobbyStep::ReportSlotStatus(SlotClientStatus::Joined),
                                );
                            }
                            steps.push(LobbyStep::ReportSlotStatus(SlotClientStatus::Joined));
                        }
                        self.reported = true;
                        if self.outgoing {
                            let joined = LobbyStep::Notify(
                                LanGameJoined { lobby_name: self.info.lobby_name() },
                            );
                            proof {
                                lemma_step_views_push(steps@, joined);
                            }
                            steps.push(joined);
                        }
                    }
                    assert(step_views(steps@) =~= send_steps(replies_view)
                        + answered.report_steps());
                    if self.join_state.should_start() {
                        let mut start = self.send_start();
                        proof {
                            lemma_step_views_add(steps@, start@);
                        }
                        steps.append(&mut start);
                        return Ok(LobbyOutcome { steps, action: Some(LobbyAction::Start) });
                    }
                }
                Ok(LobbyOutcome { steps, action: None })
            },
            LobbyEvent::ClientClosed => Err(Error::StreamClosed),
            LobbyEvent::PingTick { elapsed_millis } => {
                let mut ping: Vec<HostPacket> = Vec::new();
                ping.push(HostPacket::PingFromHost { payload: elapsed_millis });
                assert(packet_views(ping@) =~= seq![
                    HostPacketView::PingFromHost { payload: elapsed_millis },
                ]);
                steps.push(LobbyStep::Send(ping));
                assert(step_views(steps@) =~= seq![
                    LobbyStepView::Send(
                        seq![HostPacketView::PingFromHost { payload: elapsed_millis }],
                    ),
                ]);
                Ok(LobbyOutcome { steps, action: None })
            },
            LobbyEvent::StatusChanged(Some(status)) => {
                self.join_state.set_status(status);
                if self.join_state.should_start() {
                    let start = self.send_start();
                    Ok(LobbyOutcome { steps: start, action: Some(LobbyAction::Start) })
                } else {
                    Ok(LobbyOutcome { steps, action: None })
                }
            },
            LobbyEvent::StatusChanged(None) => Ok(LobbyOutcome { steps, action: None }),
            LobbyEvent::StatusSourceDropped => Err(Error::TaskCancelled),
        }
    }

    /// Takes the events in order until one ends the lobby or none is left,
    /// and returns every step that they asked for.
    pub fn run(&mut self, addr: ClientAddr, events: Vec<LobbyEvent>) -> (run: LobbyRun)
        ensures
            final(self)@ == old(self)@.run(addr, event_views(events@)).handler,
            step_views(run.steps@) == old(self)@.run(addr, event_views(events@)).steps,
            run.result == old(self)@.run(addr, event_views(events@)).result,
            final(self)@.wf(),
    {
        proof {
            use_type_invariant(&*self);
        }
        let ghost all = event_views(events@);
        let ghost start = self@;
        let mut pending = events;
        let mut steps: Vec<LobbyStep> = Vec::new();
        assert(step_views(steps@) =~= Seq::empty());
        assert(Seq::<LobbyStepView>::empty() + start.run(addr, all).steps =~= start.run(
            addr,
            all,
        ).steps);
        while pending.len() > 0
            invariant
                self@.wf(),
                start == old(self)@,
                all == event_views(events@),
                start.run(addr, all).handler == self@.run(addr, event_views(pending@)).handler,
                start.run(addr, all).steps == step_views(steps@) + self@.run(
                    addr,
                    event_views(pending@),
                ).steps,
                start.run(addr, all).result == self@.run(addr, event_views(pending@)).result,
            decreases pending@.len(),
        {
            let ghost before = self@;
            let ghost rest = event_views(pending@);
            let event = pending.remove(0);
            assert(event@ == rest[0]);
            assert(event_views(pending@) =~= rest.skip(1));
            match self.step(addr, event) {
                Err(e) => {
                    assert(step_views(steps@) + Seq::<LobbyStepView>::empty() =~= step_views(
                        steps@,
                    ));
                    return LobbyRun { steps, result: Some(Err(e)) };
                },
                Ok(outcome) => {
                    let LobbyOutcome { steps: mut more, action } = outcome;
                    proof {
                        lemma_step_views_add(steps@, more@);
                        assert((step_views(steps@) + step_views(more@)) + self@.run(
                            addr,
                            rest.skip(1),
                        ).steps =~= step_views(steps@) + (step_views(more@) + self@.run(
                            addr,
                            rest.skip(1),
                        ).steps));
                    }
                    steps.append(&mut more);
                    match action {
                        Some(action) => {
                            return LobbyRun { steps, result: Some(Ok(action)) };
                        },
                        None => {},
                    }
                },
            }
        }
        assert(step_views(steps@) + Seq::<LobbyStepView>::empty() =~= step_views(steps@));
        LobbyRun { steps, result: None }
    }
}

} // verus!
