//! The frames of the lobby server's protocol, and the packets in them as
//! far as the session reads them.

use crate::net::node::{node_info_views, NodeInfo, NodeInfoView};
use vstd::prelude::*;

verus! {

/// The kind of packet that a frame carries.
#[derive(Debug, Clone, Copy, PartialEq, Eq, Structural)]
pub enum PacketTypeId {
    Ping,
    Pong,
    ConnectLobby,
    ConnectLobbyAccept,
    ConnectLobbyReject,
    LobbyDisconnect,
    GameInfo,
    GamePlayerEnter,
    GamePlayerLeave,
    GameSlotUpdate,
    PlayerSessionUpdate,
    ListNodes,
    GameSelectNode,
    GamePlayerPingMapUpdate,
    GamePlayerPingMapSnapshot,
    /// A kind that this program does not know; holds its number.
    UnknownValue(u8),
}

/// One frame: the kind of packet and its bytes.
#[derive(Debug, Clone, PartialEq, Eq)]
pub struct Frame {
    pub type_id: PacketTypeId,
    pub payload: Vec<u8>,
}

/// What a frame is, in contracts.
pub struct FrameView {
    pub type_id: PacketTypeId,
    pub payload: Seq<u8>,
}

impl View for Frame {
    type V = FrameView;

    open spec fn view(&self) -> FrameView {
        FrameView { type_id: self.type_id, payload: self.payload@ }
    }
}

/// The version of this program, as the lobby server is told it.
#[derive(Debug, Clone, Copy, PartialEq, Eq, Structural)]
pub struct Version {
    pub major: i32,
    pub minor: i32,
    pub patch: i32,
}

/// The request that opens a session.
#[derive(Debug, Clone, PartialEq, Eq)]
pub struct PacketConnectLobby {
    pub connect_version: Option<Version>,
    pub token: String,
}

/// A player as a message names them; the source is still a number.
#[derive(Debug, Clone, PartialEq, Eq)]
pub struct PlayerInfo {
    pub id: i32,
    pub name: String,
    pub source: i32,
}

/// What a player in a message is, in contracts.
pub struct PlayerInfoView {
    pub id: i32,
    pub name: Seq<char>,
    pub source: i32,
}

impl View for PlayerInfo {
    type V = PlayerInfoView;

    open spec fn view(&self) -> PlayerInfoView {
        PlayerInfoView { id: self.id, name: self.name@, source: self.source }
    }
}

/// A session as a message describes it; the status is still a number and
/// the player may be missing.
#[derive(Debug, Clone, PartialEq, Eq)]
pub struct Session {
    pub player: Option<PlayerInfo>,
    pub status: i32,
    pub game_id: Option<i32>,
}

/// What a session in a message is, in contracts.
pub struct SessionView {
    pub player: Option<PlayerInfoView>,
    pub status: i32,
    pub game_id: Option<i32>,
}

impl View for Session {
    type V = SessionView;

    open spec fn view(&self) -> SessionView {
        SessionView {
            player: match self.player {
                Some(player) => Some(player@),
                None => None,
            },
            status: self.status,
            game_id: self.game_id,
        }
    }
}

/// The change of a session as a message describes it.
#[derive(Debug, Clone, Copy, PartialEq, Eq, Structural)]
pub struct PacketPlayerSessionUpdate {
    pub status: i32,
    pub game_id: Option<i32>,
}

/// The relay node of a game, as a message names it.
#[derive(Debug, Clone, Copy, PartialEq, Eq, Structural)]
pub struct GameNode {
    pub id: Option<i32>,
}

/// A game as a message describes it. The session reads the node; the rest
/// is carried along as it came.
#[derive(Debug, Clone, PartialEq, Eq)]
pub struct Game {
    pub node: Option<GameNode>,
    pub body: Vec<u8>,
}

/// What a game in a message is, in contracts.
pub struct GameView {
    pub node: Option<GameNode>,
    pub body: Seq<u8>,
}

impl View for Game {
    type V = GameView;

    open spec fn view(&self) -> GameView {
        GameView { node: self.node, body: self.body@ }
    }
}

impl GameView {
    /// The id of the node that the game runs on, where the message names
    /// a node and the node has an id.
    pub open spec fn node_id(self) -> Option<i32> {
        match self.node {
            Some(node) => node.id,
            None => None,
        }
    }
}

/// A packet of the lobby server. Packets that are only passed on hold
/// their bytes.
#[derive(Debug, Clone, PartialEq, Eq)]
pub enum LobbyPacket {
    ConnectLobbyAccept { session: Option<Session> },
    ConnectLobbyReject { reason: i32 },
    LobbyDisconnect { reason: i32 },
    GameInfo { game: Option<Game> },
    GamePlayerEnter(Vec<u8>),
    GamePlayerLeave(Vec<u8>),
    GameSlotUpdate(Vec<u8>),
    PlayerSessionUpdate(PacketPlayerSessionUpdate),
    ListNodes { nodes: Vec<NodeInfo> },
    GameSelectNode { node_id: Option<i32>, body: Vec<u8> },
    GamePlayerPingMapUpdate(Vec<u8>),
    GamePlayerPingMapSnapshot(Vec<u8>),
    /// A packet of any other kind.
    Other { type_id: PacketTypeId },
}

/// What a packet of the lobby server is, in contracts.
pub enum LobbyPacketView {
    ConnectLobbyAccept { session: Option<SessionView> },
    ConnectLobbyReject { reason: i32 },
    LobbyDisconnect { reason: i32 },
    GameInfo { game: Option<GameView> },
    GamePlayerEnter(Seq<u8>),
    GamePlayerLeave(Seq<u8>),
    GameSlotUpdate(Seq<u8>),
    PlayerSessionUpdate(PacketPlayerSessionUpdate),
    ListNodes { nodes: Seq<NodeInfoView> },
    GameSelectNode { node_id: Option<i32>, body: Seq<u8> },
    GamePlayerPingMapUpdate(Seq<u8>),
    GamePlayerPingMapSnapshot(Seq<u8>),
    Other { type_id: PacketTypeId },
}

impl View for LobbyPacket {
    type V = LobbyPacketView;

    open spec fn view(&self) -> LobbyPacketView {
        match self {
            LobbyPacket::ConnectLobbyAccept { session } => LobbyPacketView::ConnectLobbyAccept {
                session: match session {
                    Some(session) => Some(session@),
                    None => None,
                },
            },
            LobbyPacket::ConnectLobbyReject { reason } => LobbyPacketView::ConnectLobbyReject {
                reason: *reason,
            },
            LobbyPacket::LobbyDisconnect { reason } => LobbyPacketView::LobbyDisconnect {
                reason: *reason,
            },
            LobbyPacket::GameInfo { game } => LobbyPacketView::GameInfo {
                game: match game {
                    Some(game) => Some(game@),
                    None => None,
                },
            },
            LobbyPacket::GamePlayerEnter(body) => LobbyPacketView::GamePlayerEnter(body@),
            LobbyPacket::GamePlayerLeave(body) => LobbyPacketView::GamePlayerLeave(body@),
            LobbyPacket::GameSlotUpdate(body) => LobbyPacketView::GameSlotUpdate(body@),
            LobbyPacket::PlayerSessionUpdate(update) => LobbyPacketView::PlayerSessionUpdate(
                *update,
            ),
            LobbyPacket::ListNodes { nodes } => LobbyPacketView::ListNodes {
                nodes: node_info_views(nodes@),
            },
            LobbyPacket::GameSelectNode { node_id, body } => LobbyPacketView::GameSelectNode {
                node_id: *node_id,
                body: body@,
            },
            LobbyPacket::GamePlayerPingMapUpdate(body) => LobbyPacketView::GamePlayerPingMapUpdate(
                body@,
            ),
            LobbyPacket::GamePlayerPingMapSnapshot(body) => LobbyPacketView::GamePlayerPingMapSnapshot(
                body@,
            ),
            LobbyPacket::Other { type_id } => LobbyPacketView::Other { type_id: *type_id },
        }
    }
}

impl LobbyPacketView {
    /// The kind of the packet.
    pub open spec fn type_id(self) -> PacketTypeId {
        match self {
            LobbyPacketView::ConnectLobbyAccept { .. } => PacketTypeId::ConnectLobbyAccept,
            LobbyPacketView::ConnectLobbyReject { .. } => PacketTypeId::ConnectLobbyReject,
            LobbyPacketView::LobbyDisconnect { .. } => PacketTypeId::LobbyDisconnect,
            LobbyPacketView::GameInfo { .. } => PacketTypeId::GameInfo,
            LobbyPacketView::GamePlayerEnter(_) => PacketTypeId::GamePlayerEnter,
            LobbyPacketView::GamePlayerLeave(_) => PacketTypeId::GamePlayerLeave,
            LobbyPacketView::GameSlotUpdate(_) => PacketTypeId::GameSlotUpdate,
            LobbyPacketView::PlayerSessionUpdate(_) => PacketTypeId::PlayerSessionUpdate,
            LobbyPacketView::ListNodes { .. } => PacketTypeId::ListNodes,
            LobbyPacketView::GameSelectNode { .. } => PacketTypeId::GameSelectNode,
            LobbyPacketView::GamePlayerPingMapUpdate(_) => PacketTypeId::GamePlayerPingMapUpdate,
            LobbyPacketView::GamePlayerPingMapSnapshot(_) => PacketTypeId::GamePlayerPingMapSnapshot,
            LobbyPacketView::Other { type_id } => type_id,
        }
    }
}

impl LobbyPacket {
    /// The kind of the packet.
    pub fn type_id(&self) -> (type_id: PacketTypeId)
        ensures
            type_id == self@.type_id(),
    {
        match self {
            LobbyPacket::ConnectLobbyAccept { .. } => PacketTypeId::ConnectLobbyAccept,
            LobbyPacket::ConnectLobbyReject { .. } => PacketTypeId::ConnectLobbyReject,
            LobbyPacket::LobbyDisconnect { .. } => PacketTypeId::LobbyDisconnect,
            LobbyPacket::GameInfo { .. } => PacketTypeId::GameInfo,
            LobbyPacket::GamePlayerEnter(_) => PacketTypeId::GamePlayerEnter,
            LobbyPacket::GamePlayerLeave(_) => PacketTypeId::GamePlayerLeave,
            LobbyPacket::GameSlotUpdate(_) => PacketTypeId::GameSlotUpdate,
            LobbyPacket::PlayerSessionUpdate(_) => PacketTypeId::PlayerSessionUpdate,
            LobbyPacket::ListNodes { .. } => PacketTypeId::ListNodes,
            LobbyPacket::GameSelectNode { .. } => PacketTypeId::GameSelectNode,
            LobbyPacket::GamePlayerPingMapUpdate(_) => PacketTypeId::GamePlayerPingMapUpdate,
            LobbyPacket::GamePlayerPingMapSnapshot(_) => PacketTypeId::GamePlayerPingMapSnapshot,
            LobbyPacket::Other { type_id } => *type_id,
        }
    }
}

} // verus!
