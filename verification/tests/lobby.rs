use flo_core::error::Error;
use flo_core::lan::game::lobby::{
    join_reply, low_u32, ClientAddr, ClientPacket, HostPacket, JoinPacketRecvState, LanGameJoined,
    LobbyAction, LobbyEvent, LobbyHandler, LobbyStep, ProtoBufMessageTypeId, SockAddrV4,
};
use flo_core::lan::game::slot::{
    index_to_player_id, LanSlotInfo, LanSlotPlayerInfo, SlotData, SlotInfo,
};
use flo_core::lan::game::{LanGameInfo, LocalGameInfo, MapChecksum};
use flo_core::types::{NodeGameStatus, SlotClientStatus};

fn slot(player_id: u8) -> SlotData {
    SlotData {
        player_id,
        download_status: 100,
        occupied: true,
        computer: false,
        team: 0,
        color: player_id,
        race: 1,
        handicap: 100,
    }
}

fn table(players: u8) -> SlotInfo {
    SlotInfo {
        slots: (1..=players).map(slot).collect(),
        random_seed: 7,
        num_players: players,
    }
}

fn game_info(names: &[&str], me: u8, ob: Option<usize>) -> LanGameInfo {
    let player_infos: Vec<LanSlotPlayerInfo> = names
        .iter()
        .enumerate()
        .map(|(i, name)| LanSlotPlayerInfo {
            slot_player_id: i as u8 + 1,
            name: name.to_string(),
        })
        .collect();
    LanGameInfo {
        game: LocalGameInfo {
            game_id: 42,
            name: "melee".to_string(),
            player_id: 1001,
            map_path: "maps\\frozen\\throne.w3x".to_string(),
            map_sha1: [9; 20],
            map_checksum: 0xdead_beef,
            random_seed: 7,
        },
        slot_info: LanSlotInfo::new(table(names.len() as u8), player_infos, me, ob).unwrap(),
        map_checksum: MapChecksum { file_size: 123_456, crc32: 0x1234_5678 },
        game_settings: vec![1, 2, 3],
        lan_game_name_override: None,
    }
}

const V4: ClientAddr = ClientAddr::V4 { ip: 0x7f00_0001, port: 6112 };

fn profile() -> ClientPacket {
    ClientPacket::ProtoBufPayload {
        type_id: ProtoBufMessageTypeId::PlayerProfile,
        raw: vec![10, 11],
    }
}

fn skins() -> ClientPacket {
    ClientPacket::ProtoBufPayload { type_id: ProtoBufMessageTypeId::PlayerSkins, raw: vec![12] }
}

fn unknown5() -> ClientPacket {
    ClientPacket::ProtoBufPayload {
        type_id: ProtoBufMessageTypeId::PlayerUnknown5,
        raw: vec![13],
    }
}

fn count(steps: &[LobbyStep], wanted: &HostPacket) -> usize {
    steps
        .iter()
        .map(|step| match step {
            LobbyStep::Send(packets) => packets.iter().filter(|p| *p == wanted).count(),
            _ => 0,
        })
        .sum()
}

fn start_sequence(info: &LanGameInfo, notify: bool) -> Vec<LobbyStep> {
    vec![
        LobbyStep::Send(vec![HostPacket::SlotInfo(info.slot_info.slot_info().clone())]),
        LobbyStep::Send(vec![HostPacket::CountDownStart]),
        LobbyStep::Sleep { millis: 3000 },
        if notify {
            LobbyStep::WaitCountdown { ceiling_millis: 6000 }
        } else {
            LobbyStep::Sleep { millis: 3000 }
        },
        LobbyStep::Send(vec![HostPacket::CountDownEnd]),
    ]
}

#[test]
fn index_to_player_id_counts_from_one() {
    assert_eq!(index_to_player_id(0), 1);
    assert_eq!(index_to_player_id(3), 4);
    assert_eq!(index_to_player_id(254), 255);
}

#[test]
fn slot_info_outside_the_limits_is_refused() {
    assert!(LanSlotInfo::new(table(1), vec![], 1, Some(255)).is_none());
    assert!(LanSlotInfo::new(table(1), vec![], 0, None).is_none());
    let zero = vec![LanSlotPlayerInfo { slot_player_id: 0, name: "x".to_string() }];
    assert!(LanSlotInfo::new(table(1), zero, 1, None).is_none());
    assert!(LanSlotInfo::new(table(1), vec![], 1, Some(254)).is_some());
}

#[test]
fn total_players_counts_the_observer() {
    assert_eq!(game_info(&["a", "b"], 1, None).slot_info.total_players(), 2);
    assert_eq!(game_info(&["a", "b"], 1, Some(3)).slot_info.total_players(), 3);
    assert_eq!(game_info(&["a", "b"], 1, Some(3)).slot_info.ob_player_id(), Some(4));
}

#[test]
fn low_u32_keeps_the_low_bits() {
    assert_eq!(low_u32(123_456), 123_456);
    assert_eq!(low_u32(u32::MAX as usize), u32::MAX);
    if usize::BITS > 32 {
        let big: u64 = 0x1_0000_0005;
        assert_eq!(low_u32(big as usize), 5);
    }
}

#[test]
fn join_state_is_ready_with_every_packet() {
    let mut state = JoinPacketRecvState::new(Some(NodeGameStatus::Waiting), 2);
    assert!(!state.is_ready());
    state.record(ProtoBufMessageTypeId::PlayerProfile);
    state.record(ProtoBufMessageTypeId::PlayerProfile);
    state.record(ProtoBufMessageTypeId::PlayerSkins);
    assert!(!state.is_ready());
    state.record(ProtoBufMessageTypeId::PlayerUnknown5);
    assert!(state.is_ready());
    assert!(!state.should_start());
    state.set_status(NodeGameStatus::Loading);
    assert!(state.should_start());
    state.set_status(NodeGameStatus::Running);
    assert!(state.should_start());
    state.set_status(NodeGameStatus::Ended);
    assert!(!state.should_start());
    assert_eq!(state.status(), Some(NodeGameStatus::Ended));
}

#[test]
fn join_state_counters_stay_within_bounds() {
    let mut state = JoinPacketRecvState::new(None, 1);
    for _ in 0..5 {
        state.record(ProtoBufMessageTypeId::PlayerProfile);
        state.record(ProtoBufMessageTypeId::PlayerSkins);
        state.record(ProtoBufMessageTypeId::PlayerUnknown5);
        state.record(ProtoBufMessageTypeId::Unknown2);
        state.record(ProtoBufMessageTypeId::UnknownValue(77));
    }
    assert_eq!(state.counts(), (1, 1, 1, 1));
    assert!(state.is_ready());
}

#[test]
fn join_reply_for_two_players() {
    let info = game_info(&["me", "peer"], 1, None);
    let addr = SockAddrV4 { ip: 0x7f00_0001, port: 6112 };
    let reply = join_reply(&info, addr);
    let expected = vec![
        HostPacket::SlotInfoJoin { slot_info: table(2), player_id: 1, external_addr: addr },
        HostPacket::SlotInfo(table(2)),
        HostPacket::PlayerInfo { player_id: 2, name: "peer".to_string() },
        HostPacket::PlayerSkins { player_id: 2 },
        HostPacket::PlayerProfile { player_id: 1, name: "me".to_string() },
        HostPacket::PlayerProfile { player_id: 2, name: "peer".to_string() },
        HostPacket::MapCheck { file_size: 123_456, crc32: 0x1234_5678, game_settings: vec![1, 2, 3] },
    ];
    assert_eq!(reply, expected);
}

#[test]
fn join_reply_with_observer() {
    let info = game_info(&["me", "peer", "third"], 2, Some(3));
    let addr = SockAddrV4 { ip: 0x7f00_0001, port: 6112 };
    let reply = join_reply(&info, addr);
    let expected = vec![
        HostPacket::SlotInfoJoin { slot_info: table(3), player_id: 2, external_addr: addr },
        HostPacket::SlotInfo(table(3)),
        HostPacket::PlayerInfo { player_id: 1, name: "me".to_string() },
        HostPacket::PlayerInfo { player_id: 3, name: "third".to_string() },
        HostPacket::PlayerSkins { player_id: 1 },
        HostPacket::PlayerSkins { player_id: 3 },
        HostPacket::PlayerProfile { player_id: 1, name: "me".to_string() },
        HostPacket::PlayerProfile { player_id: 2, name: "peer".to_string() },
        HostPacket::PlayerProfile { player_id: 3, name: "third".to_string() },
        HostPacket::PlayerInfo { player_id: 4, name: "FLO".to_string() },
        HostPacket::PlayerSkins { player_id: 4 },
        HostPacket::PlayerProfile { player_id: 4, name: "FLO".to_string() },
        HostPacket::MapCheck { file_size: 123_456, crc32: 0x1234_5678, game_settings: vec![1, 2, 3] },
    ];
    assert_eq!(reply, expected);
}

#[test]
fn happy_path_two_player_lobby() {
    let info = game_info(&["me", "peer"], 1, None);
    let mut handler = LobbyHandler::new(&info, Some(NodeGameStatus::Waiting), true, true, false);
    let run = handler.run(
        V4,
        vec![
            LobbyEvent::Packet(ClientPacket::ReqJoin),
            LobbyEvent::Packet(profile()),
            LobbyEvent::Packet(profile()),
            LobbyEvent::Packet(skins()),
            LobbyEvent::Packet(unknown5()),
            LobbyEvent::StatusChanged(Some(NodeGameStatus::Loading)),
        ],
    );
    assert_eq!(run.result, Some(Ok(LobbyAction::Start)));
    let addr = SockAddrV4 { ip: 0x7f00_0001, port: 6112 };
    let mut expected = vec![
        LobbyStep::Send(join_reply(&info, addr)),
        LobbyStep::Send(vec![HostPacket::ProtoBufPayload {
            type_id: ProtoBufMessageTypeId::PlayerProfile,
            raw: vec![10, 11],
        }]),
        LobbyStep::Send(vec![HostPacket::ProtoBufPayload {
            type_id: ProtoBufMessageTypeId::PlayerProfile,
            raw: vec![10, 11],
        }]),
        LobbyStep::Send(vec![HostPacket::ProtoBufPayload {
            type_id: ProtoBufMessageTypeId::PlayerSkins,
            raw: vec![12],
        }]),
        LobbyStep::Send(vec![HostPacket::ProtoBufPayload {
            type_id: ProtoBufMessageTypeId::PlayerUnknown5,
            raw: vec![13],
        }]),
        LobbyStep::ReportSlotStatus(SlotClientStatus::Joined),
        LobbyStep::Notify(LanGameJoined { lobby_name: "melee-1001".to_string() }),
    ];
    expected.extend(start_sequence(&info, false));
    assert_eq!(run.steps, expected);
    let reply = join_reply(&info, addr);
    let kinds = |f: fn(&HostPacket) -> bool| reply.iter().filter(|p| f(p)).count();
    assert_eq!(kinds(|p| matches!(p, HostPacket::SlotInfoJoin { .. } | HostPacket::SlotInfo(_))), 2);
    assert_eq!(kinds(|p| matches!(p, HostPacket::PlayerInfo { .. })), 1);
    assert_eq!(kinds(|p| matches!(p, HostPacket::PlayerSkins { .. })), 1);
    assert_eq!(kinds(|p| matches!(p, HostPacket::PlayerProfile { .. })), 2);
    assert_eq!(kinds(|p| matches!(p, HostPacket::MapCheck { .. })), 1);
    assert!(handler.is_starting());
    assert!(handler.has_reported());
}

#[test]
fn lobby_with_observer_needs_three_profiles() {
    let info = game_info(&["me", "peer"], 1, Some(2));
    let mut handler = LobbyHandler::new(&info, Some(NodeGameStatus::Loading), false, false, true);
    let run = handler.run(
        V4,
        vec![
            LobbyEvent::Packet(profile()),
            LobbyEvent::Packet(profile()),
            LobbyEvent::Packet(skins()),
            LobbyEvent::Packet(unknown5()),
        ],
    );
    assert_eq!(run.result, None);
    assert!(!handler.join_state().is_ready());
    let outcome = handler.step(V4, LobbyEvent::Packet(profile())).unwrap();
    assert_eq!(outcome.action, Some(LobbyAction::Start));
    let mut expected = vec![LobbyStep::Send(vec![HostPacket::ProtoBufPayload {
        type_id: ProtoBufMessageTypeId::PlayerProfile,
        raw: vec![10, 11],
    }])];
    expected.extend(start_sequence(&info, true));
    assert_eq!(outcome.steps, expected);
}

#[test]
fn ipv6_client_is_refused_at_join() {
    let info = game_info(&["me", "peer"], 1, None);
    let mut handler = LobbyHandler::new(&info, None, true, true, false);
    let run = handler.run(ClientAddr::V6, vec![LobbyEvent::Packet(ClientPacket::ReqJoin)]);
    assert_eq!(run.result, Some(Err(Error::Ipv6NotSupported)));
    assert!(run.steps.is_empty());
    assert_eq!(
        handler.handle_packet(ClientAddr::V6, ClientPacket::ReqJoin),
        Err(Error::Ipv6NotSupported)
    );
}

#[test]
fn start_is_sent_once_when_status_flips() {
    let info = game_info(&["me", "peer"], 1, None);
    let mut handler = LobbyHandler::new(&info, Some(NodeGameStatus::Waiting), true, true, false);
    let run = handler.run(
        V4,
        vec![
            LobbyEvent::StatusChanged(Some(NodeGameStatus::Loading)),
            LobbyEvent::StatusChanged(Some(NodeGameStatus::Waiting)),
            LobbyEvent::Packet(profile()),
            LobbyEvent::Packet(profile()),
            LobbyEvent::Packet(skins()),
            LobbyEvent::Packet(unknown5()),
            LobbyEvent::StatusChanged(None),
            LobbyEvent::StatusChanged(Some(NodeGameStatus::Loading)),
            LobbyEvent::StatusChanged(Some(NodeGameStatus::Running)),
        ],
    );
    assert_eq!(run.result, Some(Ok(LobbyAction::Start)));
    assert_eq!(count(&run.steps, &HostPacket::CountDownStart), 1);
    assert_eq!(count(&run.steps, &HostPacket::CountDownEnd), 1);
    let n = run.steps.len();
    assert_eq!(run.steps[n - 5..].to_vec(), start_sequence(&info, false));
    assert_eq!(
        run.steps.iter().filter(|s| matches!(s, LobbyStep::ReportSlotStatus(_))).count(),
        1
    );
    assert_eq!(run.steps.iter().filter(|s| matches!(s, LobbyStep::Notify(_))).count(), 1);
}

#[test]
fn send_start_is_idempotent() {
    let info = game_info(&["me", "peer"], 1, None);
    let mut handler = LobbyHandler::new(&info, None, true, true, true);
    let first = handler.send_start();
    assert_eq!(first, start_sequence(&info, true));
    for _ in 0..4 {
        assert!(handler.send_start().is_empty());
    }
    assert!(handler.is_starting());
}

#[test]
fn other_packets_in_the_lobby() {
    let info = game_info(&["me", "peer"], 2, None);
    let mut handler = LobbyHandler::new(&info, None, true, true, false);
    assert_eq!(handler.handle_packet(V4, ClientPacket::MapSize), Ok(vec![]));
    assert_eq!(handler.handle_packet(V4, ClientPacket::PongToHost { payload: 5 }), Ok(vec![]));
    assert_eq!(handler.handle_packet(V4, ClientPacket::LeaveReq), Ok(vec![]));
    assert_eq!(
        handler.handle_packet(V4, ClientPacket::ChatToHost),
        Ok(vec![HostPacket::ChatFromHost {
            from_player: 2,
            to_players: vec![2],
            message: "Setting changes and chat are disabled.".to_string(),
        }])
    );
    let drop = ClientPacket::ProtoBufPayload {
        type_id: ProtoBufMessageTypeId::Unknown2,
        raw: vec![1],
    };
    assert_eq!(handler.handle_packet(V4, drop), Ok(vec![]));
    let unknown = ClientPacket::ProtoBufPayload {
        type_id: ProtoBufMessageTypeId::UnknownValue(9),
        raw: vec![1],
    };
    assert_eq!(handler.handle_packet(V4, unknown), Ok(vec![]));
    assert_eq!(
        handler.handle_packet(V4, ClientPacket::Other { type_id: 0x27 }),
        Err(Error::UnexpectedPacket(0x27))
    );
    assert_eq!(handler.join_state().counts(), (2, 0, 0, 0));
}

#[test]
fn events_that_end_or_feed_the_lobby() {
    let info = game_info(&["me", "peer"], 1, None);
    let mut handler = LobbyHandler::new(&info, None, true, true, false);
    assert_eq!(handler.step(V4, LobbyEvent::ClientClosed), Err(Error::StreamClosed));
    assert_eq!(handler.step(V4, LobbyEvent::StatusSourceDropped), Err(Error::TaskCancelled));
    let ping = handler.step(V4, LobbyEvent::PingTick { elapsed_millis: 15_000 }).unwrap();
    assert_eq!(ping.action, None);
    assert_eq!(
        ping.steps,
        vec![LobbyStep::Send(vec![HostPacket::PingFromHost { payload: 15_000 }])]
    );
    let leave = handler.step(V4, LobbyEvent::Packet(ClientPacket::LeaveReq)).unwrap();
    assert!(leave.steps.is_empty());
    assert_eq!(leave.action, None);
}

#[test]
fn joined_is_told_only_where_somebody_listens() {
    let mut info = game_info(&["me"], 1, None);
    info.lan_game_name_override = Some("my lobby".to_string());
    let events = || {
        vec![
            LobbyEvent::Packet(profile()),
            LobbyEvent::Packet(skins()),
            LobbyEvent::Packet(unknown5()),
        ]
    };
    let mut silent = LobbyHandler::new(&info, None, false, false, false);
    let run = silent.run(V4, events());
    assert_eq!(run.steps.len(), 3);
    assert!(silent.has_reported());
    let mut loud = LobbyHandler::new(&info, None, false, true, false);
    let run = loud.run(V4, events());
    assert_eq!(
        run.steps[3],
        LobbyStep::Notify(LanGameJoined { lobby_name: "my lobby".to_string() })
    );
    assert_eq!(run.result, None);
    let again = loud.step(V4, LobbyEvent::Packet(profile())).unwrap();
    assert_eq!(again.steps.len(), 1);
}
