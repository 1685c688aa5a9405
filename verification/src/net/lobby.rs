//! The session with the lobby server: the handshake, the heartbeat, and
//! what each packet of the server does to the session, to the node
//! registry, and what the user is told of it.

use crate::error::Error;
use crate::net::node::{node_views, Node, NodeInfoView, NodeRegistry, NodeRegistryView, NodeView};
use crate::net::packet::{
    Frame, FrameView, Game, GameView, LobbyPacket, LobbyPacketView, PacketConnectLobby,
    PacketPlayerSessionUpdate, PacketTypeId, PlayerInfoView as PacketPlayerInfoView, Session,
    SessionView, Version,
};
use crate::text::{decimal_nat, push_decimal_nat};
use vstd::prelude::*;
use vstd::string::*;

pub use crate::error::RejectReason;

verus! {

/// How many frames may wait to be sent to the lobby server before those
/// who want more sent have to wait themselves.
pub const OUTBOUND_QUEUE_CAPACITY: usize = 5;

/// What the user is told when the lobby server ends the session.
pub const SERVER_CLOSED_MESSAGE: &'static str = "Server closed the connection";

/// Why the lobby server ended the session.
#[derive(Debug, Clone, Copy, PartialEq, Eq, Structural)]
pub enum DisconnectReason {
    Unknown,
    Multi,
    Maintenance,
}

/// Whether the player is in a game.
#[derive(Debug, Clone, Copy, PartialEq, Eq, Structural)]
pub enum PlayerStatus {
    Idle,
    InGame,
}

/// Where the player's account comes from.
#[derive(Debug, Clone, Copy, PartialEq, Eq, Structural)]
pub enum PlayerSource {
    Test,
    BNet,
}

/// The reason that a number in a message stands for.
pub open spec fn spec_disconnect_reason(value: i32) -> Result<DisconnectReason, Error> {
    if value == 0 {
        Ok(DisconnectReason::Unknown)
    } else if value == 1 {
        Ok(DisconnectReason::Multi)
    } else if value == 2 {
        Ok(DisconnectReason::Maintenance)
    } else {
        Err(Error::EnumDiscriminantNotFound(value))
    }
}

/// The status that a number in a message stands for.
pub open spec fn spec_player_status(value: i32) -> Result<PlayerStatus, Error> {
    if value == 0 {
        Ok(PlayerStatus::Idle)
    } else if value == 1 {
        Ok(PlayerStatus::InGame)
    } else {
        Err(Error::EnumDiscriminantNotFound(value))
    }
}

/// The source that a number in a message stands for.
pub open spec fn spec_player_source(value: i32) -> Result<PlayerSource, Error> {
    if value == 0 {
        Ok(PlayerSource::Test)
    } else if value == 1 {
        Ok(PlayerSource::BNet)
    } else {
        Err(Error::EnumDiscriminantNotFound(value))
    }
}

/// The reason for a rejection that a number in a message stands for.
pub open spec fn spec_reject_reason(value: i32) -> Result<RejectReason, Error> {
    if value == 0 {
        Ok(RejectReason::Unknown)
    } else if value == 1 {
        Ok(RejectReason::ClientVersionTooOld)
    } else if value == 2 {
        Ok(RejectReason::InvalidToken)
    } else {
        Err(Error::EnumDiscriminantNotFound(value))
    }
}

impl DisconnectReason {
    /// Reads the reason from its number in a message.
    pub fn unpack_i32(value: i32) -> (result: Result<DisconnectReason, Error>)
        ensures
            result == spec_disconnect_reason(value),
    {
        match value {
            0 => Ok(DisconnectReason::Unknown),
            1 => Ok(DisconnectReason::Multi),
            2 => Ok(DisconnectReason::Maintenance),
            _ => Err(Error::EnumDiscriminantNotFound(value)),
        }
    }
}

impl PlayerStatus {
    /// Reads the status from its number in a message.
    pub fn unpack_i32(value: i32) -> (result: Result<PlayerStatus, Error>)
        ensures
            result == spec_player_status(value),
    {
        match value {
            0 => Ok(PlayerStatus::Idle),
            1 => Ok(PlayerStatus::InGame),
            _ => Err(Error::EnumDiscriminantNotFound(value)),
        }
    }
}

impl PlayerSource {
    /// Reads the source from its number in a message.
    pub fn unpack_i32(value: i32) -> (result: Result<PlayerSource, Error>)
        ensures
            result == spec_player_source(value),
    {
        match value {
            0 => Ok(PlayerSource::Test),
            1 => Ok(PlayerSource::BNet),
            _ => Err(Error::EnumDiscriminantNotFound(value)),
        }
    }
}

/// Reads the reason for a rejection from its number in a message.
pub fn unpack_reject_reason(value: i32) -> (result: Result<RejectReason, Error>)
    ensures
        result == spec_reject_reason(value),
{
    match value {
        0 => Ok(RejectReason::Unknown),
        1 => Ok(RejectReason::ClientVersionTooOld),
        2 => Ok(RejectReason::InvalidToken),
        _ => Err(Error::EnumDiscriminantNotFound(value)),
    }
}

/// The player of a session.
#[derive(Debug, Clone, PartialEq, Eq)]
pub struct PlayerInfo {
    pub id: i32,
    pub name: String,
    pub source: PlayerSource,
}

/// What a player is, in contracts.
pub struct PlayerInfoView {
    pub id: i32,
    pub name: Seq<char>,
    pub source: PlayerSource,
}

impl View for PlayerInfo {
    type V = PlayerInfoView;

    open spec fn view(&self) -> PlayerInfoView {
        PlayerInfoView { id: self.id, name: self.name@, source: self.source }
    }
}

/// A session with the lobby server.
#[derive(Debug, Clone, PartialEq, Eq)]
pub struct PlayerSession {
    pub player: PlayerInfo,
    pub status: PlayerStatus,
    pub game_id: Option<i32>,
}

/// What a session is, in contracts.
pub struct PlayerSessionView {
    pub player: PlayerInfoView,
    pub status: PlayerStatus,
    pub game_id: Option<i32>,
}

impl View for PlayerSession {
    type V = PlayerSessionView;

    open spec fn view(&self) -> PlayerSessionView {
        PlayerSessionView { player: self.player@, status: self.status, game_id: self.game_id }
    }
}

/// A change of the session.
#[derive(Debug, Clone, Copy, PartialEq, Eq, Structural)]
pub struct PlayerSessionUpdate {
    pub status: PlayerStatus,
    pub game_id: Option<i32>,
}

/// The player that a message describes, or the error in the message.
pub open spec fn spec_unpack_player(player: PacketPlayerInfoView) -> Result<PlayerInfoView, Error> {
    match spec_player_source(player.source) {
        Ok(source) => Ok(PlayerInfoView { id: player.id, name: player.name, source }),
        Err(e) => Err(e),
    }
}

/// The session that a message describes, or the error in the message:
/// the session and its player must be there, and the numbers for the
/// player's source and for the status must each name a variant. The
/// player is looked at before the status.
pub open spec fn spec_unpack_session(session: Option<SessionView>) -> Result<
    PlayerSessionView,
    Error,
> {
    match session {
        None => Err(Error::ValueNotPresent),
        Some(session) => match session.player {
            None => Err(Error::ValueNotPresent),
            Some(player) => match spec_unpack_player(player) {
                Err(e) => Err(e),
                Ok(player) => match spec_player_status(session.status) {
                    Err(e) => Err(e),
                    Ok(status) => Ok(
                        PlayerSessionView { player, status, game_id: session.game_id },
                    ),
                },
            },
        },
    }
}

/// The change of a session that a message describes, or the error in the
/// message.
pub open spec fn spec_unpack_session_update(update: PacketPlayerSessionUpdate) -> Result<
    PlayerSessionUpdate,
    Error,
> {
    match spec_player_status(update.status) {
        Ok(status) => Ok(PlayerSessionUpdate { status, game_id: update.game_id }),
        Err(e) => Err(e),
    }
}

impl PlayerInfo {
    /// Reads a player from a message.
    pub fn unpack(player: crate::net::packet::PlayerInfo) -> (result: Result<PlayerInfo, Error>)
        ensures
            match result {
                Ok(unpacked) => spec_unpack_player(player@) == Ok::<PlayerInfoView, Error>(
                    unpacked@,
                ),
                Err(e) => spec_unpack_player(player@) == Err::<PlayerInfoView, Error>(e),
            },
    {
        match PlayerSource::unpack_i32(player.source) {
            Ok(source) => Ok(PlayerInfo { id: player.id, name: player.name, source }),
            Err(e) => Err(e),
        }
    }
}

impl PlayerSession {
    /// Reads a session from a message.
    pub fn unpack(session: Option<Session>) -> (result: Result<PlayerSession, Error>)
        ensures
            match result {
                Ok(unpacked) => spec_unpack_session(
                    match session {
                        Some(session) => Some(session@),
                        None => None,
                    },
                ) == Ok::<PlayerSessionView, Error>(unpacked@),
                Err(e) => spec_unpack_session(
                    match session {
                        Some(session) => Some(session@),
                        None => None,
                    },
                ) == Err::<PlayerSessionView, Error>(e),
            },
    {
        let session = match session {
            Some(session) => session,
            None => {
                return Err(Error::ValueNotPresent);
            },
        };
        let Session { player, status, game_id } = session;
        let player = match player {
            Some(player) => player,
            None => {
                return Err(Error::ValueNotPresent);
            },
        };
        let player = match PlayerInfo::unpack(player) {
            Ok(player) => player,
            Err(e) => {
                return Err(e);
            },
        };
        match PlayerStatus::unpack_i32(status) {
            Ok(status) => Ok(PlayerSession { player, status, game_id }),
            Err(e) => Err(e),
        }
    }
}

impl PlayerSessionUpdate {
    /// Reads the change of a session from a message.
    pub fn unpack(update: PacketPlayerSessionUpdate) -> (result: Result<PlayerSessionUpdate, Error>)
        ensures
            result == spec_unpack_session_update(update),
    {
        match PlayerStatus::unpack_i32(update.status) {
            Ok(status) => Ok(PlayerSessionUpdate { status, game_id: update.game_id }),
            Err(e) => Err(e),
        }
    }
}

/// Something that the user is told.
#[derive(Debug, Clone, PartialEq, Eq)]
pub enum OutgoingMessage {
    PlayerSession(PlayerSession),
    Disconnect { reason: DisconnectReason, message: String },
    CurrentGameInfo(Game),
    GamePlayerEnter(Vec<u8>),
    GamePlayerLeave(Vec<u8>),
    GameSlotUpdate(Vec<u8>),
    PlayerSessionUpdate(PlayerSessionUpdate),
    ListNodes(Vec<Node>),
    GameSelectNode { node_id: Option<i32>, body: Vec<u8> },
    GamePlayerPingMapUpdate(Vec<u8>),
    GamePlayerPingMapSnapshot(Vec<u8>),
}

/// What a message to the user is, in contracts.
pub enum OutgoingMessageView {
    PlayerSession(PlayerSessionView),
    Disconnect { reason: DisconnectReason, message: Seq<char> },
    CurrentGameInfo(GameView),
    GamePlayerEnter(Seq<u8>),
    GamePlayerLeave(Seq<u8>),
    GameSlotUpdate(Seq<u8>),
    PlayerSessionUpdate(PlayerSessionUpdate),
    ListNodes(Seq<NodeView>),
    GameSelectNode { node_id: Option<i32>, body: Seq<u8> },
    GamePlayerPingMapUpdate(Seq<u8>),
    GamePlayerPingMapSnapshot(Seq<u8>),
}

impl View for OutgoingMessage {
    type V = OutgoingMessageView;

    open spec fn view(&self) -> OutgoingMessageView {
        match self {
            OutgoingMessage::PlayerSession(session) => OutgoingMessageView::PlayerSession(
                session@,
            ),
            OutgoingMessage::Disconnect { reason, message } => OutgoingMessageView::Disconnect {
                reason: *reason,
                message: message@,
            },
            OutgoingMessage::CurrentGameInfo(game) => OutgoingMessageView::CurrentGameInfo(game@),
            OutgoingMessage::GamePlayerEnter(body) => OutgoingMessageView::GamePlayerEnter(body@),
            OutgoingMessage::GamePlayerLeave(body) => OutgoingMessageView::GamePlayerLeave(body@),
            OutgoingMessage::GameSlotUpdate(body) => OutgoingMessageView::GameSlotUpdate(body@),
            OutgoingMessage::PlayerSessionUpdate(update) => OutgoingMessageView::PlayerSessionUpdate(
                *update,
            ),
            OutgoingMessage::ListNodes(nodes) => OutgoingMessageView::ListNodes(
                node_views(nodes@),
            ),
            OutgoingMessage::GameSelectNode { node_id, body } => OutgoingMessageView::GameSelectNode {
                node_id: *node_id,
                body: body@,
            },
            OutgoingMessage::GamePlayerPingMapUpdate(body) => OutgoingMessageView::GamePlayerPingMapUpdate(
                body@,
            ),
            OutgoingMessage::GamePlayerPingMapSnapshot(body) => OutgoingMessageView::GamePlayerPingMapSnapshot(
                body@,
            ),
        }
    }
}

/// The state of the session, in contracts.
pub struct LobbyStreamView {
    /// The session as the lobby server last described it.
    pub session: PlayerSessionView,
    /// The session is over: nothing is sent or told any more.
    pub closed: bool,
}

impl LobbyStreamView {
    /// The game that the player is in, if any.
    pub open spec fn current_game_id(self) -> Option<i32> {
        self.session.game_id
    }
}

/// The address of the lobby server: its domain, a colon, and its port in
/// decimal.
pub open spec fn spec_connect_addr(domain: Seq<char>, port: u16) -> Seq<char> {
    domain + seq![':'] + decimal_nat(port as nat)
}

/// The address of the lobby server.
pub fn connect_addr(domain: &str, port: u16) -> (addr: String)
    ensures
        addr@ == spec_connect_addr(domain@, port),
{
    let mut addr = String::from_str(domain);
    proof {
        reveal_strlit(":");
    }
    addr.append(":");
    assert(":"@ =~= seq![':']);
    push_decimal_nat(&mut addr, port as u64);
    addr
}

/// What the lobby server's answer to the connection request leads to: the
/// session that it grants, or the error that ends the attempt. It must
/// accept or reject; a rejection carries its reason.
pub open spec fn spec_connect(reply: LobbyPacketView) -> Result<PlayerSessionView, Error> {
    match reply {
        LobbyPacketView::ConnectLobbyAccept { session } => spec_unpack_session(session),
        LobbyPacketView::ConnectLobbyReject { reason } => match spec_reject_reason(reason) {
            Ok(reason) => Err(Error::ConnectionRequestRejected(reason)),
            Err(e) => Err(e),
        },
        _ => Err(Error::UnexpectedPacketTypeId(reply.type_id())),
    }
}

/// The node that a game in a message runs on.
pub open spec fn game_node_id(game: Option<GameView>) -> Option<i32> {
    match game {
        Some(game) => game.node_id(),
        None => None,
    }
}

/// What one packet of the lobby server does.
pub struct Dispatched {
    /// The session afterwards.
    pub stream: LobbyStreamView,
    /// The node registry afterwards.
    pub nodes: NodeRegistryView,
    /// What the user is told, or the error that ends the session.
    pub result: Result<OutgoingMessageView, Error>,
}

/// What a packet of the lobby server does to the session and to the node
/// registry, and what the user is told of it.
pub open spec fn spec_dispatch(
    stream: LobbyStreamView,
    nodes: NodeRegistryView,
    packet: LobbyPacketView,
) -> Dispatched {
    match packet {
        LobbyPacketView::LobbyDisconnect { reason } => Dispatched {
            stream,
            nodes,
            result: match spec_disconnect_reason(reason) {
                Ok(reason) => Ok(
                    OutgoingMessageView::Disconnect { reason, message: SERVER_CLOSED_MESSAGE@ },
                ),
                Err(e) => Err(e),
            },
        },
        LobbyPacketView::GameInfo { game } => {
            let node_id = game_node_id(game);
            if !nodes.can_select(node_id) {
                Dispatched { stream, nodes, result: Err(Error::NodeNotFound(node_id->0)) }
            } else {
                Dispatched {
                    stream,
                    nodes: nodes.selected(node_id),
                    result: match game {
                        Some(game) => Ok(OutgoingMessageView::CurrentGameInfo(game)),
                        None => Err(Error::ValueNotPresent),
                    },
                }
            }
        },
        LobbyPacketView::GamePlayerEnter(body) => Dispatched {
            stream,
            nodes,
            result: Ok(OutgoingMessageView::GamePlayerEnter(body)),
        },
        LobbyPacketView::GamePlayerLeave(body) => Dispatched {
            stream,
            nodes,
            result: Ok(OutgoingMessageView::GamePlayerLeave(body)),
        },
        LobbyPacketView::GameSlotUpdate(body) => Dispatched {
            stream,
            nodes,
            result: Ok(OutgoingMessageView::GameSlotUpdate(body)),
        },
        LobbyPacketView::PlayerSessionUpdate(update) => {
            let nodes = if update.game_id is None {
                nodes.selected(None)
            } else {
                nodes
            };
            match spec_unpack_session_update(update) {
                Ok(unpacked) => Dispatched {
                    stream: LobbyStreamView {
                        session: PlayerSessionView {
                            status: unpacked.status,
                            game_id: update.game_id,
                            ..stream.session
                        },
                        ..stream
                    },
                    nodes,
                    result: Ok(OutgoingMessageView::PlayerSessionUpdate(unpacked)),
                },
                Err(e) => Dispatched {
                    stream: LobbyStreamView {
                        session: PlayerSessionView { game_id: update.game_id, ..stream.session },
                        ..stream
                    },
                    nodes,
                    result: Err(e),
                },
            }
        },
        LobbyPacketView::ListNodes { nodes: list } => {
            let replaced = nodes.replaced(list);
            Dispatched {
                stream,
                nodes: replaced,
                result: Ok(OutgoingMessageView::ListNodes(replaced.annotated(list))),
            }
        },
        LobbyPacketView::GameSelectNode { node_id, body } => if !nodes.can_select(node_id) {
            Dispatched { stream, nodes, result: Err(Error::NodeNotFound(node_id->0)) }
        } else {
            Dispatched {
                stream,
                nodes: nodes.selected(node_id),
                result: Ok(OutgoingMessageView::GameSelectNode { node_id, body }),
            }
        },
        LobbyPacketView::GamePlayerPingMapUpdate(body) => Dispatched {
            stream,
            nodes,
            result: Ok(OutgoingMessageView::GamePlayerPingMapUpdate(body)),
        },
        LobbyPacketView::GamePlayerPingMapSnapshot(body) => Dispatched {
            stream,
            nodes,
            result: Ok(OutgoingMessageView::GamePlayerPingMapSnapshot(body)),
        },
        _ => Dispatched {
            stream,
            nodes,
            result: Err(Error::UnexpectedPacketTypeId(packet.type_id())),
        },
    }
}

/// The session with the lobby server. It does no input or output itself:
/// it is told what arrived and says what to send and what to tell the
/// user.
#[derive(Debug, PartialEq, Eq)]
pub struct LobbyStream {
    session: PlayerSession,
    closed: bool,
}

impl View for LobbyStream {
    type V = LobbyStreamView;

    closed spec fn view(&self) -> LobbyStreamView {
        LobbyStreamView { session: self.session@, closed: self.closed }
    }
}

impl LobbyStream {
    /// The request that opens a session: the version of this program and
    /// the player's token.
    pub fn connect_request(version: Version, token: String) -> (request: PacketConnectLobby)
        ensures
            request.connect_version == Some(version),
            request.token@ == token@,
    {
        PacketConnectLobby { connect_version: Some(version), token }
    }

    /// Takes the lobby server's answer to the connection request. Where
    /// the server accepts, returns the session and the message that tells
    /// the user of it; where it rejects, or answers anything else, the
    /// attempt is over.
    pub fn connect(reply: LobbyPacket) -> (result: Result<(LobbyStream, OutgoingMessage), Error>)
        ensures
            match result {
                Ok((stream, message)) => spec_connect(reply@) == Ok::<PlayerSessionView, Error>(
                    stream@.session,
                ) && !stream@.closed && message@ == OutgoingMessageView::PlayerSession(
                    stream@.session,
                ),
                Err(e) => spec_connect(reply@) == Err::<PlayerSessionView, Error>(e),
            },
    {
        let type_id = reply.type_id();
        match reply {
            LobbyPacket::ConnectLobbyAccept { session } => {
                match PlayerSession::unpack(session) {
                    Ok(session) => {
                        let message = OutgoingMessage::PlayerSession(session.clone_session());
                        Ok((LobbyStream { session, closed: false }, message))
                    },
                    Err(e) => Err(e),
                }
            },
            LobbyPacket::ConnectLobbyReject { reason } => match unpack_reject_reason(reason) {
                Ok(reason) => Err(Error::ConnectionRequestRejected(reason)),
                Err(e) => Err(e),
            },
            _ => Err(Error::UnexpectedPacketTypeId(type_id)),
        }
    }

    /// The game that the player is in, if any.
    pub fn current_game_id(&self) -> (game_id: Option<i32>)
        ensures
            game_id == self@.current_game_id(),
    {
        self.session.game_id
    }

    /// The session as the lobby server last described it.
    pub fn session(&self) -> (session: &PlayerSession)
        ensures
            session@ == self@.session,
    {
        &self.session
    }

    /// Whether the session is over.
    pub fn is_closed(&self) -> (closed: bool)
        ensures
            closed == self@.closed,
    {
        self.closed
    }

    /// Takes one packet of the lobby server: brings the session and the
    /// node registry up to date, and returns what the user is told of it.
    /// An error ends the session.
    pub fn dispatch(&mut self, nodes: &mut NodeRegistry, packet: LobbyPacket) -> (result: Result<
        OutgoingMessage,
        Error,
    >)
        ensures
            final(self)@ == spec_dispatch(old(self)@, old(nodes)@, packet@).stream,
            final(nodes)@ == spec_dispatch(old(self)@, old(nodes)@, packet@).nodes,
            match result {
                Ok(message) => spec_dispatch(old(self)@, old(nodes)@, packet@).result == Ok::<
                    OutgoingMessageView,
                    Error,
                >(message@),
                Err(e) => spec_dispatch(old(self)@, old(nodes)@, packet@).result == Err::<
                    OutgoingMessageView,
                    Error,
                >(e),
            },
    {
        let type_id = packet.type_id();
        match packet {
            LobbyPacket::LobbyDisconnect { reason } => match DisconnectReason::unpack_i32(reason) {
                Ok(reason) => Ok(
                    OutgoingMessage::Disconnect {
                        reason,
                        message: String::from_str(SERVER_CLOSED_MESSAGE),
                    },
                ),
                Err(e) => Err(e),
            },
            LobbyPacket::GameInfo { game } => {
                let node_id = match &game {
                    Some(game) => match game.node {
                        Some(node) => node.id,
                        None => None,
                    },
                    None => None,
                };
                match nodes.set_selected_node(node_id) {
                    Ok(()) => {},
                    Err(e) => {
                        return Err(e);
                    },
                }
                match game {
                    Some(game) => Ok(OutgoingMessage::CurrentGameInfo(game)),
                    None => Err(Error::ValueNotPresent),
                }
            },
            LobbyPacket::GamePlayerEnter(body) => Ok(OutgoingMessage::GamePlayerEnter(body)),
            LobbyPacket::GamePlayerLeave(body) => Ok(OutgoingMessage::GamePlayerLeave(body)),
            LobbyPacket::GameSlotUpdate(body) => Ok(OutgoingMessage::GameSlotUpdate(body)),
            LobbyPacket::PlayerSessionUpdate(update) => {
                if update.game_id.is_none() {
                    match nodes.set_selected_node(None) {
                        Ok(()) => {},
                        Err(e) => {
                            return Err(e);
                        },
                    }
                }
                self.session.game_id = update.game_id;
                match PlayerSessionUpdate::unpack(update) {
                    Ok(unpacked) => {
                        self.session.status = unpacked.status;
                        Ok(OutgoingMessage::PlayerSessionUpdate(unpacked))
                    },
                    Err(e) => Err(e),
                }
            },
            LobbyPacket::ListNodes { nodes: list } => {
                nodes.update_nodes(&list);
                Ok(OutgoingMessage::ListNodes(nodes.annotate_nodes(&list)))
            },
            LobbyPacket::GameSelectNode { node_id, body } => {
                match nodes.set_selected_node(node_id) {
                    Ok(()) => Ok(OutgoingMessage::GameSelectNode { node_id, body }),
                    Err(e) => Err(e),
                }
            },
            LobbyPacket::GamePlayerPingMapUpdate(body) => Ok(
                OutgoingMessage::GamePlayerPingMapUpdate(body),
            ),
            LobbyPacket::GamePlayerPingMapSnapshot(body) => Ok(
                OutgoingMessage::GamePlayerPingMapSnapshot(body),
            ),
            _ => Err(Error::UnexpectedPacketTypeId(type_id)),
        }
    }
}

impl PlayerSession {
    /// A copy of the session.
    pub fn clone_session(&self) -> (copy: PlayerSession)
        ensures
            copy@ == self@,
    {
        PlayerSession {
            player: PlayerInfo {
                id: self.player.id,
                name: self.player.name.clone(),
                source: self.player.source,
            },
            status: self.status,
            game_id: self.game_id,
        }
    }
}

/// Something that happened to the session.
#[derive(Debug, Clone, PartialEq, Eq)]
pub enum StreamEvent {
    /// Somebody in this program wants a frame sent to the lobby server.
    Outbound(Frame),
    /// Nobody in this program can ask for a frame to be sent any more.
    OutboundClosed,
    /// A frame arrived from the lobby server.
    Inbound(Frame),
    /// A frame that arrived was read as a packet.
    Packet(LobbyPacket),
    /// A frame could not be sent; holds the failure in words.
    SendFailed(String),
    /// The connection failed while waiting for a frame.
    RecvFailed(String),
    /// A packet could not be read, or the user could not be told of it.
    DispatchFailed(String),
}

/// What an event of the session is, in contracts.
pub enum StreamEventView {
    Outbound(FrameView),
    OutboundClosed,
    Inbound(FrameView),
    Packet(LobbyPacketView),
    SendFailed(Seq<char>),
    RecvFailed(Seq<char>),
    DispatchFailed(Seq<char>),
}

impl View for StreamEvent {
    type V = StreamEventView;

    open spec fn view(&self) -> StreamEventView {
        match self {
            StreamEvent::Outbound(frame) => StreamEventView::Outbound(frame@),
            StreamEvent::OutboundClosed => StreamEventView::OutboundClosed,
            StreamEvent::Inbound(frame) => StreamEventView::Inbound(frame@),
            StreamEvent::Packet(packet) => StreamEventView::Packet(packet@),
            StreamEvent::SendFailed(why) => StreamEventView::SendFailed(why@),
            StreamEvent::RecvFailed(why) => StreamEventView::RecvFailed(why@),
            StreamEvent::DispatchFailed(why) => StreamEventView::DispatchFailed(why@),
        }
    }
}

/// One thing that the program around the session has to do.
#[derive(Debug, Clone, PartialEq, Eq)]
pub enum StreamAction {
    /// Send this frame to the lobby server.
    SendFrame(Frame),
    /// Read this frame as a packet and hand the packet back.
    Decode(Frame),
    /// Tell the user; where that fails after the session is closed, the
    /// failure is of no account.
    Emit(OutgoingMessage),
    /// Stop: the session is over.
    Close,
}

/// What an action of the session is, in contracts.
pub enum StreamActionView {
    SendFrame(FrameView),
    Decode(FrameView),
    Emit(OutgoingMessageView),
    Close,
}

impl View for StreamAction {
    type V = StreamActionView;

    open spec fn view(&self) -> StreamActionView {
        match self {
            StreamAction::SendFrame(frame) => StreamActionView::SendFrame(frame@),
            StreamAction::Decode(frame) => StreamActionView::Decode(frame@),
            StreamAction::Emit(message) => StreamActionView::Emit(message@),
            StreamAction::Close => StreamActionView::Close,
        }
    }
}

/// The views of a list of actions, in order.
pub open spec fn action_views(actions: Seq<StreamAction>) -> Seq<StreamActionView> {
    Seq::new(actions.len(), |i: int| actions[i]@)
}

/// The answer to a heartbeat: the same bytes in a frame of the answering
/// kind.
pub open spec fn pong_of(ping: FrameView) -> FrameView {
    FrameView { type_id: PacketTypeId::Pong, payload: ping.payload }
}

/// What the user is told when the session breaks: the phase in which it
/// broke, a colon and a space, and the failure in words.
pub open spec fn failure_text(phase: Seq<char>, why: Seq<char>) -> Seq<char> {
    phase + seq![':', ' '] + why
}

/// The two actions that end a broken session: the user is told, then the
/// program stops.
pub open spec fn failure_actions(phase: Seq<char>, why: Seq<char>) -> Seq<StreamActionView> {
    seq![
        StreamActionView::Emit(
            OutgoingMessageView::Disconnect {
                reason: DisconnectReason::Unknown,
                message: failure_text(phase, why),
            },
        ),
        StreamActionView::Close,
    ]
}

/// What one event of the session does.
pub struct Handled {
    /// The session afterwards.
    pub stream: LobbyStreamView,
    /// The node registry afterwards.
    pub nodes: NodeRegistryView,
    /// What is to be done, in order.
    pub actions: Seq<StreamActionView>,
}

/// The session closed.
pub open spec fn closed_stream(stream: LobbyStreamView) -> LobbyStreamView {
    LobbyStreamView { closed: true, ..stream }
}

/// What an event does to the session and to the node registry, and what
/// is to be done about it. A session that is over takes no event. A
/// heartbeat is answered at once and is never read as a packet.
pub open spec fn spec_handle(
    stream: LobbyStreamView,
    nodes: NodeRegistryView,
    event: StreamEventView,
) -> Handled {
    if stream.closed {
        Handled { stream, nodes, actions: Seq::empty() }
    } else {
        match event {
            StreamEventView::Outbound(frame) => Handled {
                stream,
                nodes,
                actions: seq![StreamActionView::SendFrame(frame)],
            },
            StreamEventView::OutboundClosed => Handled {
                stream: closed_stream(stream),
                nodes,
                actions: seq![StreamActionView::Close],
            },
            StreamEventView::Inbound(frame) => Handled {
                stream,
                nodes,
                actions: if frame.type_id == PacketTypeId::Ping {
                    seq![StreamActionView::SendFrame(pong_of(frame))]
                } else {
                    seq![StreamActionView::Decode(frame)]
                },
            },
            StreamEventView::Packet(packet) => {
                let dispatched = spec_dispatch(stream, nodes, packet);
                match dispatched.result {
                    Ok(message) => Handled {
                        stream: dispatched.stream,
                        nodes: dispatched.nodes,
                        actions: seq![StreamActionView::Emit(message)],
                    },
                    Err(e) => Handled {
                        stream: closed_stream(dispatched.stream),
                        nodes: dispatched.nodes,
                        actions: failure_actions("dispatch"@, crate::error::error_text(e)),
                    },
                }
            },
            StreamEventView::SendFailed(why) => Handled {
                stream: closed_stream(stream),
                nodes,
                actions: failure_actions("send"@, why),
            },
            StreamEventView::RecvFailed(why) => Handled {
                stream: closed_stream(stream),
                nodes,
                actions: failure_actions("recv"@, why),
            },
            StreamEventView::DispatchFailed(why) => Handled {
                stream: closed_stream(stream),
                nodes,
                actions: failure_actions("dispatch"@, why),
            },
        }
    }
}

/// Says what to do with a frame of the lobby server: a heartbeat is sent
/// back with its bytes unchanged, any other frame is to be read as a
/// packet.
pub fn on_frame(frame: Frame) -> (action: StreamAction)
    ensures
        action@ == if frame@.type_id == PacketTypeId::Ping {
            StreamActionView::SendFrame(pong_of(frame@))
        } else {
            StreamActionView::Decode(frame@)
        },
{
    match frame.type_id {
        PacketTypeId::Ping => StreamAction::SendFrame(
            Frame { type_id: PacketTypeId::Pong, payload: frame.payload },
        ),
        _ => StreamAction::Decode(frame),
    }
}

/// The two actions that end a broken session.
fn fail(phase: &str, why: &str) -> (actions: Vec<StreamAction>)
    ensures
        action_views(actions@) == failure_actions(phase@, why@),
{
    let mut message = String::from_str(phase);
    proof {
        reveal_strlit(": ");
    }
    message.append(": ");
    assert(": "@ =~= seq![':', ' ']);
    message.append(why);
    let mut actions: Vec<StreamAction> = Vec::new();
    actions.push(
        StreamAction::Emit(
            OutgoingMessage::Disconnect { reason: DisconnectReason::Unknown, message },
        ),
    );
    actions.push(StreamAction::Close);
    assert(action_views(actions@) =~= failure_actions(phase@, why@));
    actions
}

/// A list of one action.
fn one(action: StreamAction) -> (actions: Vec<StreamAction>)
    ensures
        action_views(actions@) == seq![action@],
{
    let mut actions: Vec<StreamAction> = Vec::new();
    actions.push(action);
    assert(action_views(actions@) =~= seq![action@]);
    actions
}

impl LobbyStream {
    /// Takes one event and says what to do about it, in order. After a
    /// `Close` the session takes no further event.
    pub fn handle(&mut self, nodes: &mut NodeRegistry, event: StreamEvent) -> (actions: Vec<
        StreamAction,
    >)
        ensures
            final(self)@ == spec_handle(old(self)@, old(nodes)@, event@).stream,
            final(nodes)@ == spec_handle(old(self)@, old(nodes)@, event@).nodes,
            action_views(actions@) == spec_handle(old(self)@, old(nodes)@, event@).actions,
    {
        if self.closed {
            let actions: Vec<StreamAction> = Vec::new();
            assert(action_views(actions@) =~= Seq::empty());
            return actions;
        }
        match event {
            StreamEvent::Outbound(frame) => one(StreamAction::SendFrame(frame)),
            StreamEvent::OutboundClosed => {
                self.closed = true;
                one(StreamAction::Close)
            },
            StreamEvent::Inbound(frame) => one(on_frame(frame)),
            StreamEvent::Packet(packet) => match self.dispatch(nodes, packet) {
                Ok(message) => one(StreamAction::Emit(message)),
                Err(e) => {
                    self.closed = true;
                    let why = e.message();
                    fail("dispatch", why.as_str())
                },
            },
            StreamEvent::SendFailed(why) => {
                self.closed = true;
                fail("send", why.as_str())
            },
            StreamEvent::RecvFailed(why) => {
                self.closed = true;
                fail("recv", why.as_str())
            },
            StreamEvent::DispatchFailed(why) => {
                self.closed = true;
                fail("dispatch", why.as_str())
            },
        }
    }
}

} // verus!
