use flo_core::error::Error;
use flo_core::grpc::{
    cancel_game_as_bot, convert_map, create_join_game_token, get_game_error_code, leave_game,
    start_game_as_bot, CancelGameRequest, ControllerError, ExecutorError, PlayerClientInfo,
    RegistryUpdate, StartGameAsBotReply, StartGameCheckAsBotResult, StartGamePlayerAck, StatusCode,
};
use flo_core::lan::game::slot::{LanSlotInfo, LanSlotPlayerInfo, SlotInfo};
use flo_core::lan::game::{
    GameInfo, LanGame, LanGameAction, LocalGameInfo, MapChecksum, NodeConnectToken, PlayerEvent,
};
use flo_core::lan::get_lan_game_name;
use flo_core::path::normalize_path;
use flo_core::text::{push_decimal, push_decimal_nat};
use flo_core::types::{NodeGameStatus, SlotClientStatus};

fn local_game() -> LocalGameInfo {
    LocalGameInfo {
        game_id: 42,
        name: "melee".to_string(),
        player_id: 1001,
        map_path: "maps\\frozen\\throne.w3x".to_string(),
        map_sha1: [9; 20],
        map_checksum: 0xdead_beef,
        random_seed: 7,
    }
}

fn slots() -> LanSlotInfo {
    LanSlotInfo::new(
        SlotInfo { slots: vec![], random_seed: 7, num_players: 1 },
        vec![LanSlotPlayerInfo { slot_player_id: 1, name: "me".to_string() }],
        1,
        None,
    )
    .unwrap()
}

fn create(token: Vec<u8>) -> Result<flo_core::lan::game::CreatedLanGame, Error> {
    LanGame::create(
        1001,
        token,
        local_game(),
        slots(),
        MapChecksum { file_size: 10, crc32: 20 },
        vec![1],
    )
}

fn info(version: &str, sha1: u8) -> PlayerClientInfo {
    PlayerClientInfo { war3_version: version.to_string(), map_sha1: vec![sha1; 20] }
}

fn ack(version: &str, sha1: u8) -> StartGamePlayerAck {
    StartGamePlayerAck { war3_version: version.to_string(), map_sha1: vec![sha1; 20] }
}

#[test]
fn decimal_numbers() {
    let mut text = String::from("n=");
    push_decimal(&mut text, 0);
    assert_eq!(text, "n=0");
    let mut text = String::new();
    push_decimal(&mut text, 1001);
    assert_eq!(text, "1001");
    let mut text = String::new();
    push_decimal(&mut text, -42);
    assert_eq!(text, "-42");
    let mut text = String::new();
    push_decimal(&mut text, i32::MIN);
    assert_eq!(text, "-2147483648");
    let mut text = String::new();
    push_decimal(&mut text, i32::MAX);
    assert_eq!(text, "2147483647");
    let mut text = String::new();
    push_decimal_nat(&mut text, u64::MAX);
    assert_eq!(text, "18446744073709551615");
}

#[test]
fn lan_game_name_joins_name_and_player() {
    assert_eq!(get_lan_game_name("melee", 1001), "melee-1001");
    assert_eq!(get_lan_game_name("", -3), "--3");
}

#[test]
fn map_path_gets_forward_slashes() {
    assert_eq!(normalize_path("maps\\frozen\\throne.w3x"), "maps/frozen/throne.w3x");
    assert_eq!(normalize_path("a/b\\c"), "a/b/c");
    assert_eq!(normalize_path(""), "");
    assert_eq!(normalize_path("карта\\ö.w3x"), "карта/ö.w3x");
}

#[test]
fn node_token_has_sixteen_bytes() {
    let bytes: Vec<u8> = (1..=16).collect();
    let token = NodeConnectToken::from_vec(bytes.clone()).unwrap();
    assert_eq!(token.to_vec(), bytes);
    assert!(NodeConnectToken::from_vec(vec![0; 15]).is_none());
    assert!(NodeConnectToken::from_vec(vec![0; 17]).is_none());
    assert!(NodeConnectToken::from_vec(vec![]).is_none());
}

#[test]
fn create_puts_the_game_together() {
    let token: Vec<u8> = (1..=16).collect();
    let created = create(token.clone()).unwrap();
    assert_eq!(created.lan_game.game_id(), 42);
    assert!(created.lan_game.is_same_game(42, 1001));
    assert!(!created.lan_game.is_same_game(42, 1002));
    assert!(!created.lan_game.is_same_game(43, 1001));
    assert_eq!(created.token.to_vec(), token);
    assert_eq!(
        created.game_info,
        GameInfo {
            game_id: 42,
            name: "melee-1001".to_string(),
            map_path: "maps/frozen/throne.w3x".to_string(),
            map_sha1: [9; 20],
            map_checksum: 0xdead_beef,
            port: 0,
        }
    );
    assert_eq!(created.info.game, local_game());
    assert_eq!(created.info.map_checksum, MapChecksum { file_size: 10, crc32: 20 });
    assert_eq!(created.info.game_settings, vec![1]);
    assert_eq!(created.info.lan_game_name_override, None);
    assert_eq!(created.info.lobby_name(), "melee-1001");
    let mut game_info = created.game_info;
    game_info.set_port(6112);
    assert_eq!(game_info.port, 6112);
    assert_eq!(game_info.name, "melee-1001");
}

#[test]
fn create_refuses_a_malformed_token() {
    assert_eq!(create(vec![1, 2, 3]).err(), Some(Error::InvalidNodeToken));
}

#[test]
fn advertiser_is_shut_down_when_the_game_is_under_way() {
    let game = create(vec![0; 16]).unwrap().lan_game;
    for status in [NodeGameStatus::Created, NodeGameStatus::Waiting, NodeGameStatus::Loading] {
        assert_eq!(
            game.update_game_status(status),
            vec![LanGameAction::DispatchGameStatus(status)]
        );
    }
    for status in [NodeGameStatus::Running, NodeGameStatus::Ended, NodeGameStatus::Terminated] {
        assert_eq!(
            game.update_game_status(status),
            vec![LanGameAction::ShutdownAdvertiser, LanGameAction::DispatchGameStatus(status)]
        );
    }
}

#[test]
fn player_status_and_shutdown() {
    let mut game = create(vec![0; 16]).unwrap().lan_game;
    assert_eq!(
        game.update_player_status(3, SlotClientStatus::Loaded),
        LanGameAction::DispatchPlayerEvent(PlayerEvent::PlayerStatusChange {
            player_id: 3,
            status: SlotClientStatus::Loaded,
        })
    );
    assert_eq!(game.shutdown(), LanGameAction::ShutdownProxy);
}

#[test]
fn status_predicates() {
    assert!(NodeGameStatus::Loading.has_started());
    assert!(NodeGameStatus::Running.has_started());
    assert!(!NodeGameStatus::Waiting.has_started());
    assert!(!NodeGameStatus::Ended.has_started());
    assert!(NodeGameStatus::Created.is_joinable());
    assert!(!NodeGameStatus::Running.is_joinable());
    assert!(!NodeGameStatus::Terminated.is_joinable());
}

#[test]
fn get_game_errors() {
    assert_eq!(
        get_game_error_code(ExecutorError::Task(ControllerError::GameNotFound)),
        StatusCode::InvalidArgument
    );
    assert_eq!(
        get_game_error_code(ExecutorError::Task(ControllerError::PlayerNotHost)),
        StatusCode::Internal
    );
    assert_eq!(get_game_error_code(ExecutorError::Task(ControllerError::Other)), StatusCode::Internal);
    assert_eq!(get_game_error_code(ExecutorError::Executor), StatusCode::Internal);
}

#[test]
fn only_the_host_gets_a_join_token() {
    assert_eq!(create_join_game_token(Some(5), 5), Ok(()));
    assert_eq!(create_join_game_token(Some(5), 6), Err(ControllerError::PlayerNotHost));
    assert_eq!(create_join_game_token(None, 5), Err(ControllerError::PlayerNotHost));
}

#[test]
fn leaving_removes_the_game_or_the_player() {
    assert_eq!(leave_game(1, 2, true), RegistryUpdate::Remove { game_id: 1 });
    assert_eq!(leave_game(1, 2, false), RegistryUpdate::RemoveGamePlayer { game_id: 1, player_id: 2 });
    assert_eq!(cancel_game_as_bot(8, 9), CancelGameRequest { game_id: 8, player_id: 9 });
}

#[test]
fn start_game_as_bot_replies() {
    let map = vec![(1, info("1.32", 1)), (2, info("1.33", 2))];
    let acks = vec![(1, ack("1.32", 1)), (2, ack("1.33", 2))];
    assert_eq!(convert_map(map.clone()), acks);
    assert_eq!(
        start_game_as_bot(Some(StartGameCheckAsBotResult::Started(Some(map.clone())))),
        Ok(StartGameAsBotReply {
            succeed: true,
            error_message: String::new(),
            player_ack_map: acks.clone(),
        })
    );
    assert_eq!(
        start_game_as_bot(Some(StartGameCheckAsBotResult::Started(None))),
        Ok(StartGameAsBotReply {
            succeed: true,
            error_message: String::new(),
            player_ack_map: vec![],
        })
    );
    assert_eq!(
        start_game_as_bot(Some(StartGameCheckAsBotResult::Rejected {
            message: "version mismatch".to_string(),
            player_client_info_map: map,
        })),
        Ok(StartGameAsBotReply {
            succeed: false,
            error_message: "version mismatch".to_string(),
            player_ack_map: acks,
        })
    );
    let cancelled = start_game_as_bot(None).unwrap_err();
    assert_eq!(cancelled.code, StatusCode::Cancelled);
    assert_eq!(cancelled.message, "System is shutting down");
}

#[test]
fn stored_player_gets_the_callers_realm() {
    let request = flo_core::grpc::UpdateAndGetPlayerRequest {
        source: 1,
        name: "fluxxu".to_string(),
        source_id: "bnet#1".to_string(),
        realm: Some("other".to_string()),
    };
    assert_eq!(
        flo_core::grpc::update_and_get_player(17, request),
        flo_core::grpc::UpsertPlayer {
            api_client_id: 17,
            source: 1,
            name: "fluxxu".to_string(),
            source_id: "bnet#1".to_string(),
            realm: Some("17".to_string()),
        }
    );
}
