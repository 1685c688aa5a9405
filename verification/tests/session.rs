use flo_core::error::{Error, RejectReason};
use flo_core::net::lobby::{
    on_frame, unpack_reject_reason, DisconnectReason, LobbyStream, OutgoingMessage, PlayerInfo,
    PlayerSession, PlayerSessionUpdate, PlayerSource, PlayerStatus, StreamAction, StreamEvent,
};
use flo_core::net::node::{Node, NodeInfo, NodeRegistry};
use flo_core::net::packet::{
    Frame, Game, GameNode, LobbyPacket, PacketPlayerSessionUpdate, PacketTypeId,
    PlayerInfo as RawPlayerInfo, Session, Version,
};

fn raw_session(game_id: Option<i32>) -> Session {
    Session {
        player: Some(RawPlayerInfo { id: 5, name: "fluxxu".to_string(), source: 1 }),
        status: 0,
        game_id,
    }
}

fn node_info(id: i32, name: &str) -> NodeInfo {
    NodeInfo {
        id,
        name: name.to_string(),
        location: "Frankfurt".to_string(),
        country_id: "DE".to_string(),
    }
}

fn node(id: i32, name: &str, ping: Option<u32>) -> Node {
    Node {
        id,
        name: name.to_string(),
        location: "Frankfurt".to_string(),
        country_id: "DE".to_string(),
        ping,
    }
}

fn connected(game_id: Option<i32>) -> LobbyStream {
    LobbyStream::connect(LobbyPacket::ConnectLobbyAccept { session: Some(raw_session(game_id)) })
        .unwrap()
        .0
}

fn registry(ids: &[i32]) -> NodeRegistry {
    let mut nodes = NodeRegistry::new();
    let list: Vec<NodeInfo> = ids.iter().map(|id| node_info(*id, "n")).collect();
    nodes.update_nodes(&list);
    nodes
}

fn disconnect(text: &str) -> Vec<StreamAction> {
    vec![
        StreamAction::Emit(OutgoingMessage::Disconnect {
            reason: DisconnectReason::Unknown,
            message: text.to_string(),
        }),
        StreamAction::Close,
    ]
}

#[test]
fn enums_are_read_from_their_numbers() {
    assert_eq!(DisconnectReason::unpack_i32(0), Ok(DisconnectReason::Unknown));
    assert_eq!(DisconnectReason::unpack_i32(1), Ok(DisconnectReason::Multi));
    assert_eq!(DisconnectReason::unpack_i32(2), Ok(DisconnectReason::Maintenance));
    assert_eq!(DisconnectReason::unpack_i32(3), Err(Error::EnumDiscriminantNotFound(3)));
    assert_eq!(PlayerStatus::unpack_i32(0), Ok(PlayerStatus::Idle));
    assert_eq!(PlayerStatus::unpack_i32(1), Ok(PlayerStatus::InGame));
    assert_eq!(PlayerStatus::unpack_i32(-1), Err(Error::EnumDiscriminantNotFound(-1)));
    assert_eq!(PlayerSource::unpack_i32(0), Ok(PlayerSource::Test));
    assert_eq!(PlayerSource::unpack_i32(1), Ok(PlayerSource::BNet));
    assert_eq!(PlayerSource::unpack_i32(2), Err(Error::EnumDiscriminantNotFound(2)));
    assert_eq!(unpack_reject_reason(0), Ok(RejectReason::Unknown));
    assert_eq!(unpack_reject_reason(1), Ok(RejectReason::ClientVersionTooOld));
    assert_eq!(unpack_reject_reason(2), Ok(RejectReason::InvalidToken));
    assert_eq!(unpack_reject_reason(9), Err(Error::EnumDiscriminantNotFound(9)));
}

#[test]
fn session_is_read_from_a_message() {
    let session = PlayerSession::unpack(Some(raw_session(Some(3)))).unwrap();
    assert_eq!(
        session,
        PlayerSession {
            player: PlayerInfo { id: 5, name: "fluxxu".to_string(), source: PlayerSource::BNet },
            status: PlayerStatus::Idle,
            game_id: Some(3),
        }
    );
    assert_eq!(PlayerSession::unpack(None), Err(Error::ValueNotPresent));
    let mut no_player = raw_session(None);
    no_player.player = None;
    assert_eq!(PlayerSession::unpack(Some(no_player)), Err(Error::ValueNotPresent));
    let mut bad_status = raw_session(None);
    bad_status.status = 7;
    assert_eq!(PlayerSession::unpack(Some(bad_status)), Err(Error::EnumDiscriminantNotFound(7)));
    let mut bad_source = raw_session(None);
    bad_source.player = Some(RawPlayerInfo { id: 1, name: "x".to_string(), source: 4 });
    bad_source.status = 7;
    assert_eq!(PlayerSession::unpack(Some(bad_source)), Err(Error::EnumDiscriminantNotFound(4)));
    assert_eq!(
        PlayerSessionUpdate::unpack(PacketPlayerSessionUpdate { status: 1, game_id: Some(2) }),
        Ok(PlayerSessionUpdate { status: PlayerStatus::InGame, game_id: Some(2) })
    );
}

#[test]
fn connect_request_holds_version_and_token() {
    let version = Version { major: 0, minor: 3, patch: 1 };
    let request = LobbyStream::connect_request(version, "secret".to_string());
    assert_eq!(request.connect_version, Some(version));
    assert_eq!(request.token, "secret");
}

#[test]
fn connect_accept_seeds_the_session() {
    let reply = LobbyPacket::ConnectLobbyAccept { session: Some(raw_session(Some(11))) };
    let (stream, message) = LobbyStream::connect(reply).unwrap();
    assert_eq!(stream.current_game_id(), Some(11));
    assert!(!stream.is_closed());
    assert_eq!(message, OutgoingMessage::PlayerSession(stream.session().clone()));
    assert_eq!(stream.session().player.name, "fluxxu");
}

#[test]
fn reject_on_connect() {
    let result = LobbyStream::connect(LobbyPacket::ConnectLobbyReject { reason: 1 });
    assert_eq!(
        result.err(),
        Some(Error::ConnectionRequestRejected(RejectReason::ClientVersionTooOld))
    );
    let result = LobbyStream::connect(LobbyPacket::ConnectLobbyReject { reason: 2 });
    assert_eq!(result.err(), Some(Error::ConnectionRequestRejected(RejectReason::InvalidToken)));
    let result = LobbyStream::connect(LobbyPacket::ConnectLobbyReject { reason: 5 });
    assert_eq!(result.err(), Some(Error::EnumDiscriminantNotFound(5)));
    let result = LobbyStream::connect(LobbyPacket::GamePlayerEnter(vec![]));
    assert_eq!(result.err(), Some(Error::UnexpectedPacketTypeId(PacketTypeId::GamePlayerEnter)));
    let result = LobbyStream::connect(LobbyPacket::ConnectLobbyAccept { session: None });
    assert_eq!(result.err(), Some(Error::ValueNotPresent));
}

#[test]
fn session_update_without_game_clears_the_selected_node() {
    let mut stream = connected(Some(1));
    let mut nodes = registry(&[7, 8]);
    nodes.set_selected_node(Some(7)).unwrap();
    assert_eq!(nodes.selected_node_id(), Some(7));
    let update = PacketPlayerSessionUpdate { status: 0, game_id: None };
    let actions = stream.handle(&mut nodes, StreamEvent::Packet(LobbyPacket::PlayerSessionUpdate(update)));
    assert_eq!(nodes.selected_node_id(), None);
    assert_eq!(stream.current_game_id(), None);
    assert_eq!(
        actions,
        vec![StreamAction::Emit(OutgoingMessage::PlayerSessionUpdate(PlayerSessionUpdate {
            status: PlayerStatus::Idle,
            game_id: None,
        }))]
    );
}

#[test]
fn session_update_with_game_keeps_the_selected_node() {
    let mut stream = connected(None);
    let mut nodes = registry(&[7]);
    nodes.set_selected_node(Some(7)).unwrap();
    let update = PacketPlayerSessionUpdate { status: 1, game_id: Some(99) };
    let message = stream.dispatch(&mut nodes, LobbyPacket::PlayerSessionUpdate(update)).unwrap();
    assert_eq!(
        message,
        OutgoingMessage::PlayerSessionUpdate(PlayerSessionUpdate {
            status: PlayerStatus::InGame,
            game_id: Some(99),
        })
    );
    assert_eq!(nodes.selected_node_id(), Some(7));
    assert_eq!(stream.current_game_id(), Some(99));
    assert_eq!(stream.session().status, PlayerStatus::InGame);
    let bad = PacketPlayerSessionUpdate { status: 4, game_id: None };
    assert_eq!(
        stream.dispatch(&mut nodes, LobbyPacket::PlayerSessionUpdate(bad)),
        Err(Error::EnumDiscriminantNotFound(4))
    );
    assert_eq!(stream.current_game_id(), None);
    assert_eq!(nodes.selected_node_id(), None);
    assert_eq!(stream.session().status, PlayerStatus::InGame);
}

#[test]
fn ping_is_answered_with_pong() {
    let mut stream = connected(None);
    let mut nodes = registry(&[1]);
    let ping = Frame { type_id: PacketTypeId::Ping, payload: vec![1, 2, 3, 4] };
    let actions = stream.handle(&mut nodes, StreamEvent::Inbound(ping.clone()));
    let pong = Frame { type_id: PacketTypeId::Pong, payload: vec![1, 2, 3, 4] };
    assert_eq!(actions, vec![StreamAction::SendFrame(pong.clone())]);
    assert_eq!(on_frame(ping), StreamAction::SendFrame(pong));
    let other = Frame { type_id: PacketTypeId::ListNodes, payload: vec![9] };
    assert_eq!(on_frame(other.clone()), StreamAction::Decode(other.clone()));
    assert_eq!(
        stream.handle(&mut nodes, StreamEvent::Inbound(other.clone())),
        vec![StreamAction::Decode(other)]
    );
    assert!(!stream.is_closed());
}

#[test]
fn list_nodes_replaces_the_registry_and_shows_pings() {
    let mut stream = connected(None);
    let mut nodes = registry(&[1, 2]);
    nodes.set_current_ping(1, Some(30));
    nodes.set_current_ping(2, Some(45));
    nodes.set_current_ping(3, Some(99));
    nodes.set_selected_node(Some(2)).unwrap();
    let list = vec![node_info(1, "one"), node_info(3, "three"), node_info(1, "uno")];
    let message = stream.dispatch(&mut nodes, LobbyPacket::ListNodes { nodes: list }).unwrap();
    assert_eq!(
        message,
        OutgoingMessage::ListNodes(vec![
            node(1, "one", Some(30)),
            node(3, "three", None),
            node(1, "uno", Some(30)),
        ])
    );
    assert!(nodes.contains(1));
    assert!(!nodes.contains(2));
    assert!(nodes.contains(3));
    assert_eq!(nodes.get_current_ping(1), Some(30));
    assert_eq!(nodes.get_current_ping(2), None);
    assert_eq!(nodes.get_current_ping(3), None);
    assert_eq!(nodes.selected_node_id(), None);
}

#[test]
fn selecting_a_node_needs_it_in_the_registry() {
    let mut nodes = registry(&[4]);
    assert_eq!(nodes.set_selected_node(Some(5)), Err(Error::NodeNotFound(5)));
    assert_eq!(nodes.selected_node_id(), None);
    assert_eq!(nodes.set_selected_node(Some(4)), Ok(()));
    assert_eq!(nodes.set_selected_node(Some(6)), Err(Error::NodeNotFound(6)));
    assert_eq!(nodes.selected_node_id(), Some(4));
    assert_eq!(nodes.set_selected_node(None), Ok(()));
    assert_eq!(nodes.selected_node_id(), None);
    let empty = NodeRegistry::new();
    assert!(!empty.contains(4));
    assert_eq!(empty.selected_node_id(), None);
}

#[test]
fn annotated_nodes_keep_order_and_ids() {
    let mut nodes = registry(&[10, 20]);
    nodes.set_current_ping(20, Some(12));
    let list = vec![node_info(20, "b"), node_info(30, "c"), node_info(10, "a")];
    assert_eq!(
        nodes.annotate_nodes(&list),
        vec![node(20, "b", Some(12)), node(30, "c", None), node(10, "a", None)]
    );
    nodes.set_current_ping(20, None);
    assert_eq!(nodes.get_current_ping(20), None);
}

#[test]
fn game_info_selects_the_node_of_the_game() {
    let mut stream = connected(Some(1));
    let mut nodes = registry(&[7]);
    let game = Game { node: Some(GameNode { id: Some(7) }), body: vec![1, 2] };
    let message =
        stream.dispatch(&mut nodes, LobbyPacket::GameInfo { game: Some(game.clone()) }).unwrap();
    assert_eq!(message, OutgoingMessage::CurrentGameInfo(game));
    assert_eq!(nodes.selected_node_id(), Some(7));
    let no_node = Game { node: None, body: vec![3] };
    let message =
        stream.dispatch(&mut nodes, LobbyPacket::GameInfo { game: Some(no_node.clone()) }).unwrap();
    assert_eq!(message, OutgoingMessage::CurrentGameInfo(no_node));
    assert_eq!(nodes.selected_node_id(), None);
    nodes.set_selected_node(Some(7)).unwrap();
    let unknown = Game { node: Some(GameNode { id: Some(8) }), body: vec![] };
    assert_eq!(
        stream.dispatch(&mut nodes, LobbyPacket::GameInfo { game: Some(unknown) }),
        Err(Error::NodeNotFound(8))
    );
    assert_eq!(nodes.selected_node_id(), Some(7));
    assert_eq!(
        stream.dispatch(&mut nodes, LobbyPacket::GameInfo { game: None }),
        Err(Error::ValueNotPresent)
    );
    assert_eq!(nodes.selected_node_id(), None);
}

#[test]
fn select_node_and_passthrough_packets() {
    let mut stream = connected(Some(1));
    let mut nodes = registry(&[7]);
    let select = LobbyPacket::GameSelectNode { node_id: Some(7), body: vec![5] };
    assert_eq!(
        stream.dispatch(&mut nodes, select),
        Ok(OutgoingMessage::GameSelectNode { node_id: Some(7), body: vec![5] })
    );
    assert_eq!(nodes.selected_node_id(), Some(7));
    let select = LobbyPacket::GameSelectNode { node_id: Some(9), body: vec![5] };
    assert_eq!(stream.dispatch(&mut nodes, select), Err(Error::NodeNotFound(9)));
    assert_eq!(
        stream.dispatch(&mut nodes, LobbyPacket::GamePlayerEnter(vec![1])),
        Ok(OutgoingMessage::GamePlayerEnter(vec![1]))
    );
    assert_eq!(
        stream.dispatch(&mut nodes, LobbyPacket::GamePlayerLeave(vec![2])),
        Ok(OutgoingMessage::GamePlayerLeave(vec![2]))
    );
    assert_eq!(
        stream.dispatch(&mut nodes, LobbyPacket::GameSlotUpdate(vec![3])),
        Ok(OutgoingMessage::GameSlotUpdate(vec![3]))
    );
    assert_eq!(
        stream.dispatch(&mut nodes, LobbyPacket::GamePlayerPingMapUpdate(vec![4])),
        Ok(OutgoingMessage::GamePlayerPingMapUpdate(vec![4]))
    );
    assert_eq!(
        stream.dispatch(&mut nodes, LobbyPacket::GamePlayerPingMapSnapshot(vec![5])),
        Ok(OutgoingMessage::GamePlayerPingMapSnapshot(vec![5]))
    );
    assert_eq!(
        stream.dispatch(&mut nodes, LobbyPacket::LobbyDisconnect { reason: 2 }),
        Ok(OutgoingMessage::Disconnect {
            reason: DisconnectReason::Maintenance,
            message: "Server closed the connection".to_string(),
        })
    );
    assert_eq!(
        stream.dispatch(&mut nodes, LobbyPacket::Other { type_id: PacketTypeId::UnknownValue(200) }),
        Err(Error::UnexpectedPacketTypeId(PacketTypeId::UnknownValue(200)))
    );
    assert_eq!(
        stream.dispatch(&mut nodes, LobbyPacket::ConnectLobbyReject { reason: 0 }),
        Err(Error::UnexpectedPacketTypeId(PacketTypeId::ConnectLobbyReject))
    );
    assert_eq!(nodes.selected_node_id(), Some(7));
}

#[test]
fn failures_tell_the_user_and_close() {
    let mut nodes = registry(&[]);
    let mut stream = connected(None);
    assert_eq!(
        stream.handle(&mut nodes, StreamEvent::RecvFailed("connection reset".to_string())),
        disconnect("recv: connection reset")
    );
    assert!(stream.is_closed());
    let frame = Frame { type_id: PacketTypeId::Ping, payload: vec![1] };
    assert!(stream.handle(&mut nodes, StreamEvent::Inbound(frame.clone())).is_empty());
    assert!(stream.handle(&mut nodes, StreamEvent::Outbound(frame)).is_empty());

    let mut stream = connected(None);
    assert_eq!(
        stream.handle(&mut nodes, StreamEvent::SendFailed("broken pipe".to_string())),
        disconnect("send: broken pipe")
    );
    let mut stream = connected(None);
    assert_eq!(
        stream.handle(&mut nodes, StreamEvent::DispatchFailed("sink closed".to_string())),
        disconnect("dispatch: sink closed")
    );
    let mut stream = connected(None);
    let packet = LobbyPacket::LobbyDisconnect { reason: 8 };
    assert_eq!(
        stream.handle(&mut nodes, StreamEvent::Packet(packet)),
        disconnect("dispatch: enum discriminant not found")
    );
    assert!(stream.is_closed());
}

#[test]
fn outbound_frames_are_sent_until_the_senders_are_gone() {
    let mut nodes = registry(&[]);
    let mut stream = connected(None);
    let frame = Frame { type_id: PacketTypeId::GameSelectNode, payload: vec![1, 2] };
    assert_eq!(
        stream.handle(&mut nodes, StreamEvent::Outbound(frame.clone())),
        vec![StreamAction::SendFrame(frame.clone())]
    );
    assert_eq!(stream.handle(&mut nodes, StreamEvent::OutboundClosed), vec![StreamAction::Close]);
    assert!(stream.is_closed());
    assert!(stream.handle(&mut nodes, StreamEvent::Outbound(frame)).is_empty());
}

#[test]
fn error_messages() {
    assert_eq!(Error::StreamClosed.message(), "stream closed unexpectedly");
    assert_eq!(Error::Ipv6NotSupported.message(), "ipv6 is not supported");
    assert_eq!(
        Error::ConnectionRequestRejected(RejectReason::InvalidToken).message(),
        "connection request rejected: invalid token"
    );
    assert_eq!(Error::NodeNotFound(3).message(), "node not found");
}

#[test]
fn connect_addr_joins_domain_and_port() {
    assert_eq!(flo_core::net::lobby::connect_addr("lobby.example.org", 3552), "lobby.example.org:3552");
    assert_eq!(flo_core::net::lobby::connect_addr("localhost", 0), "localhost:0");
    assert_eq!(flo_core::net::lobby::connect_addr("::1", 65535), "::1:65535");
}
