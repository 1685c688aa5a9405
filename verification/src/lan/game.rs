//! One LAN game: what is announced, and what the lobby handler works from.

pub mod invariants;
pub mod lobby;
pub mod slot;

use crate::error::Error;
use crate::lan::game::slot::{LanSlotInfo, LanSlotInfoView};
use crate::lan::{get_lan_game_name, spec_lan_game_name};
use crate::path::{normalize_path, spec_normalize_path};
use crate::types::{NodeGameStatus, SlotClientStatus};
use vstd::slice::slice_to_vec;
use vstd::prelude::*;

verus! {

/// The game as the lobby server described it to this player.
#[derive(Debug, Clone, PartialEq, Eq)]
pub struct LocalGameInfo {
    pub game_id: i32,
    pub name: String,
    pub player_id: i32,
    pub map_path: String,
    pub map_sha1: [u8; 20],
    pub map_checksum: u32,
    pub random_seed: i32,
}

/// Size and checksum of the map file on this machine.
#[derive(Debug, Clone, Copy, PartialEq, Eq, Structural)]
pub struct MapChecksum {
    pub file_size: usize,
    pub crc32: u32,
}

/// Everything the lobby handler needs to know of one game. It does not
/// change while the game lasts.
#[derive(Debug, PartialEq, Eq)]
pub struct LanGameInfo {
    pub game: LocalGameInfo,
    pub slot_info: LanSlotInfo,
    pub map_checksum: MapChecksum,
    pub game_settings: Vec<u8>,
    pub lan_game_name_override: Option<String>,
}

/// What a game description is, in contracts.
pub struct LanGameInfoView {
    pub game_name: Seq<char>,
    pub player_id: i32,
    pub slot_info: LanSlotInfoView,
    pub map_checksum: MapChecksum,
    pub game_settings: Seq<u8>,
    pub lan_game_name_override: Option<Seq<char>>,
}

impl View for LanGameInfo {
    type V = LanGameInfoView;

    open spec fn view(&self) -> LanGameInfoView {
        LanGameInfoView {
            game_name: self.game.name@,
            player_id: self.game.player_id,
            slot_info: self.slot_info@,
            map_checksum: self.map_checksum,
            game_settings: self.game_settings@,
            lan_game_name_override: match self.lan_game_name_override {
                Some(name) => Some(name@),
                None => None,
            },
        }
    }
}

impl LanGameInfoView {
    /// The name of the lobby as the user is told it: the name that was set
    /// for it, or else the name under which the game is announced.
    pub open spec fn lobby_name(self) -> Seq<char> {
        match self.lan_game_name_override {
            Some(name) => name,
            None => spec_lan_game_name(self.game_name, self.player_id),
        }
    }
}

impl LanGameInfo {
    /// The name of the lobby as the user is told it.
    pub fn lobby_name(&self) -> (name: String)
        ensures
            name@ == self@.lobby_name(),
    {
        match &self.lan_game_name_override {
            Some(name) => name.clone(),
            None => get_lan_game_name(self.game.name.as_str(), self.game.player_id),
        }
    }
}

/// Number of bytes in the token that admits a player to a relay node.
pub const NODE_TOKEN_LEN: usize = 16;

/// Time that the announcement of a game is kept up after its shutdown was
/// asked for, in milliseconds, so that probes under way are still answered.
pub const ADVERTISER_DRAIN_MILLIS: u64 = 1000;

/// The token that admits a player to a relay node.
#[derive(Debug, Clone, PartialEq, Eq)]
pub struct NodeConnectToken(pub [u8; 16]);

impl View for NodeConnectToken {
    type V = Seq<u8>;

    open spec fn view(&self) -> Seq<u8> {
        self.0@
    }
}

impl NodeConnectToken {
    /// Reads a token from bytes: exactly sixteen of them, or there is no
    /// token.
    pub fn from_vec(bytes: Vec<u8>) -> (token: Option<NodeConnectToken>)
        ensures
            token is Some <==> bytes@.len() == NODE_TOKEN_LEN,
            token matches Some(t) ==> t@ == bytes@,
    {
        if bytes.len() != NODE_TOKEN_LEN {
            return None;
        }
        let mut token: [u8; 16] = [0u8; 16];
        let mut i: usize = 0;
        while i < NODE_TOKEN_LEN
            invariant
                i <= NODE_TOKEN_LEN,
                bytes@.len() == NODE_TOKEN_LEN,
                forall|k: int| 0 <= k < i ==> token@[k] == bytes@[k],
            decreases NODE_TOKEN_LEN - i,
        {
            token[i] = bytes[i];
            i = i + 1;
        }
        assert(token@ =~= bytes@);
        Some(NodeConnectToken(token))
    }

    /// The bytes of the token.
    pub fn to_vec(&self) -> (bytes: Vec<u8>)
        ensures
            bytes@ == self@,
    {
        slice_to_vec(self.0.as_slice())
    }
}

/// What is announced of a game on the LAN.
#[derive(Debug, Clone, PartialEq, Eq)]
pub struct GameInfo {
    pub game_id: i32,
    pub name: String,
    /// The path of the map, with slashes.
    pub map_path: String,
    pub map_sha1: [u8; 20],
    pub map_checksum: u32,
    /// The port on this machine that the game client is to connect to;
    /// zero until it is known.
    pub port: u16,
}

/// What an announcement is, in contracts.
pub struct GameInfoView {
    pub game_id: i32,
    pub name: Seq<char>,
    pub map_path: Seq<char>,
    pub map_sha1: Seq<u8>,
    pub map_checksum: u32,
    pub port: u16,
}

impl View for GameInfo {
    type V = GameInfoView;

    open spec fn view(&self) -> GameInfoView {
        GameInfoView {
            game_id: self.game_id,
            name: self.name@,
            map_path: self.map_path@,
            map_sha1: self.map_sha1@,
            map_checksum: self.map_checksum,
            port: self.port,
        }
    }
}

impl GameInfo {
    /// The announcement of a game, with no port yet. The path of the map
    /// is written with slashes.
    pub fn new(game_id: i32, name: &str, map_path: &str, map_sha1: [u8; 20], map_checksum: u32) -> (info:
        GameInfo)
        ensures
            info@ == (GameInfoView {
                game_id,
                name: name@,
                map_path: spec_normalize_path(map_path@),
                map_sha1: map_sha1@,
                map_checksum,
                port: 0,
            }),
    {
        GameInfo {
            game_id,
            name: String::from_str(name),
            map_path: normalize_path(map_path),
            map_sha1,
            map_checksum,
            port: 0,
        }
    }

    /// Sets the port, once the listener for the game client is bound.
    pub fn set_port(&mut self, port: u16)
        ensures
            final(self)@ == (GameInfoView { port, ..old(self)@ }),
    {
        self.port = port;
    }
}

/// Something that happened to a player of the game.
#[derive(Debug, Clone, Copy, PartialEq, Eq, Structural)]
pub enum PlayerEvent {
    PlayerStatusChange { player_id: i32, status: SlotClientStatus },
}

/// One thing that the program around a LAN game has to do.
#[derive(Debug, Clone, Copy, PartialEq, Eq, Structural)]
pub enum LanGameAction {
    /// Take the announcement of the game down.
    ShutdownAdvertiser,
    /// Pass the status of the game on to the proxy.
    DispatchGameStatus(NodeGameStatus),
    /// Pass the event on to the proxy.
    DispatchPlayerEvent(PlayerEvent),
    /// Shut the proxy down.
    ShutdownProxy,
}

/// What a status of the game calls for: the announcement comes down once
/// the game can no longer be joined, and the proxy hears of every status.
pub open spec fn status_actions(status: NodeGameStatus) -> Seq<LanGameAction> {
    if status.spec_is_joinable() {
        seq![LanGameAction::DispatchGameStatus(status)]
    } else {
        seq![LanGameAction::ShutdownAdvertiser, LanGameAction::DispatchGameStatus(status)]
    }
}

/// A game that is announced on the LAN.
#[derive(Debug, PartialEq, Eq)]
pub struct LanGame {
    game_id: i32,
    my_player_id: i32,
}

/// What a LAN game is, in contracts.
pub struct LanGameView {
    pub game_id: i32,
    pub my_player_id: i32,
}

impl View for LanGame {
    type V = LanGameView;

    closed spec fn view(&self) -> LanGameView {
        LanGameView { game_id: self.game_id, my_player_id: self.my_player_id }
    }
}

/// Everything that creating a LAN game gives.
#[derive(Debug, PartialEq, Eq)]
pub struct CreatedLanGame {
    pub lan_game: LanGame,
    /// What the proxy and the lobby handler work from.
    pub info: LanGameInfo,
    /// What is to be announced, once the port is set.
    pub game_info: GameInfo,
    /// The token for the relay node.
    pub token: NodeConnectToken,
}

impl LanGame {
    /// Prepares a LAN game for the player `my_player_id`: checks the
    /// token for the relay node, names the game, and puts together what
    /// is announced and what the lobby handler works from.
    pub fn create(
        my_player_id: i32,
        player_token: Vec<u8>,
        game: LocalGameInfo,
        slot_info: LanSlotInfo,
        map_checksum: MapChecksum,
        game_settings: Vec<u8>,
    ) -> (result: Result<CreatedLanGame, Error>)
        ensures
            player_token@.len() != NODE_TOKEN_LEN ==> result == Err::<CreatedLanGame, Error>(
                Error::InvalidNodeToken,
            ),
            player_token@.len() == NODE_TOKEN_LEN ==> result is Ok,
            result matches Ok(created) ==> {
                &&& created.lan_game@ == (LanGameView { game_id: game.game_id, my_player_id })
                &&& created.token@ == player_token@
                &&& created.game_info@ == (GameInfoView {
                    game_id: game.game_id,
                    name: spec_lan_game_name(game.name@, my_player_id),
                    map_path: spec_normalize_path(game.map_path@),
                    map_sha1: game.map_sha1@,
                    map_checksum: game.map_checksum,
                    port: 0,
                })
                &&& created.info@ == (LanGameInfoView {
                    game_name: game.name@,
                    player_id: game.player_id,
                    slot_info: slot_info@,
                    map_checksum,
                    game_settings: game_settings@,
                    lan_game_name_override: None,
                })
            },
    {
        let game_name = get_lan_game_name(game.name.as_str(), my_player_id);
        let game_info = GameInfo::new(
            game.game_id,
            game_name.as_str(),
            game.map_path.as_str(),
            game.map_sha1,
            game.map_checksum,
        );
        let token = match NodeConnectToken::from_vec(player_token) {
            Some(token) => token,
            None => {
                return Err(Error::InvalidNodeToken);
            },
        };
        let lan_game = LanGame { game_id: game.game_id, my_player_id };
        let info = LanGameInfo {
            game,
            slot_info,
            map_checksum,
            game_settings,
            lan_game_name_override: None,
        };
        Ok(CreatedLanGame { lan_game, info, game_info, token })
    }

    /// The id of the game.
    pub fn game_id(&self) -> (game_id: i32)
        ensures
            game_id == self@.game_id,
    {
        self.game_id
    }

    /// Takes the status of the game on the relay node and says what to do
    /// about it.
    pub fn update_game_status(&self, status: NodeGameStatus) -> (actions: Vec<LanGameAction>)
        ensures
            actions@ == status_actions(status),
    {
        let mut actions: Vec<LanGameAction> = Vec::new();
        if !status.is_joinable() {
            actions.push(LanGameAction::ShutdownAdvertiser);
        }
        actions.push(LanGameAction::DispatchGameStatus(status));
        assert(actions@ =~= status_actions(status));
        actions
    }

    /// Takes the status of a player's slot and says what to do about it.
    pub fn update_player_status(&mut self, player_id: i32, status: SlotClientStatus) -> (action:
        LanGameAction)
        ensures
            action == LanGameAction::DispatchPlayerEvent(
                PlayerEvent::PlayerStatusChange { player_id, status },
            ),
            final(self)@ == old(self)@,
    {
        LanGameAction::DispatchPlayerEvent(PlayerEvent::PlayerStatusChange { player_id, status })
    }

    /// Whether this is the game `game_id` as the player `my_player_id`
    /// plays it.
    pub fn is_same_game(&self, game_id: i32, my_player_id: i32) -> (same: bool)
        ensures
            same == (self@.game_id == game_id && self@.my_player_id == my_player_id),
    {
        self.game_id == game_id && self.my_player_id == my_player_id
    }

    /// Ends the game on this machine.
    pub fn shutdown(self) -> (action: LanGameAction)
        ensures
            action == LanGameAction::ShutdownProxy,
    {
        LanGameAction::ShutdownProxy
    }
}

} // verus!
