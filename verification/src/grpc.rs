//! What the controller's service decides between its calls to the
//! database and to the game registry. The calls themselves, and the
//! server around them, belong to the embedding program.

use crate::text::{decimal_int, push_decimal};
use vstd::prelude::*;
use vstd::string::*;

verus! {

/// What is said to a caller whose request was under way when the
/// controller shut down.
pub const SHUTTING_DOWN_MESSAGE: &'static str = "System is shutting down";

/// The status codes that the service answers with.
#[derive(Debug, Clone, Copy, PartialEq, Eq, Structural)]
pub enum StatusCode {
    Cancelled,
    InvalidArgument,
    Internal,
}

/// A failed call, as the caller is told of it.
#[derive(Debug, Clone, PartialEq, Eq)]
pub struct Status {
    pub code: StatusCode,
    pub message: String,
}

/// The errors of the controller that the service tells apart.
#[derive(Debug, Clone, Copy, PartialEq, Eq, Structural)]
pub enum ControllerError {
    GameNotFound,
    PlayerNotHost,
    /// Any other error.
    Other,
}

/// How a piece of work on the database failed.
#[derive(Debug, Clone, Copy, PartialEq, Eq, Structural)]
pub enum ExecutorError {
    /// The work itself failed.
    Task(ControllerError),
    /// The work could not be run.
    Executor,
}

/// The status code for a failed look-up of a game: a game that does not
/// exist is the caller's mistake, anything else the controller's.
pub open spec fn spec_get_game_error_code(error: ExecutorError) -> StatusCode {
    if error == ExecutorError::Task(ControllerError::GameNotFound) {
        StatusCode::InvalidArgument
    } else {
        StatusCode::Internal
    }
}

/// The status code for a failed look-up of a game.
pub fn get_game_error_code(error: ExecutorError) -> (code: StatusCode)
    ensures
        code == spec_get_game_error_code(error),
{
    match error {
        ExecutorError::Task(ControllerError::GameNotFound) => StatusCode::InvalidArgument,
        _ => StatusCode::Internal,
    }
}

/// Decides whether a player may have a token made that lets others join
/// a game: only the player who created the game may.
pub fn create_join_game_token(created_by: Option<i32>, player_id: i32) -> (result: Result<
    (),
    ControllerError,
>)
    ensures
        result is Ok <==> created_by == Some(player_id),
        result is Err ==> result == Err::<(), ControllerError>(ControllerError::PlayerNotHost),
{
    match created_by {
        Some(host) => if host == player_id {
            Ok(())
        } else {
            Err(ControllerError::PlayerNotHost)
        },
        None => Err(ControllerError::PlayerNotHost),
    }
}

/// What the game registry is told after a player left a game.
#[derive(Debug, Clone, Copy, PartialEq, Eq, Structural)]
pub enum RegistryUpdate {
    /// The game is over: forget it.
    Remove { game_id: i32 },
    /// The game goes on without the player.
    RemoveGamePlayer { game_id: i32, player_id: i32 },
}

/// Says what the game registry is told after a player left a game:
/// the game is removed if the leaving ended it, else only the player.
pub fn leave_game(game_id: i32, player_id: i32, game_ended: bool) -> (update: RegistryUpdate)
    ensures
        update == if game_ended {
            RegistryUpdate::Remove { game_id }
        } else {
            RegistryUpdate::RemoveGamePlayer { game_id, player_id }
        },
{
    if game_ended {
        RegistryUpdate::Remove { game_id }
    } else {
        RegistryUpdate::RemoveGamePlayer { game_id, player_id }
    }
}

/// A request to cancel a game.
#[derive(Debug, Clone, Copy, PartialEq, Eq, Structural)]
pub struct CancelGameRequest {
    pub game_id: i32,
    pub player_id: i32,
}

/// The request by which a bot cancels a game: the game is cancelled in
/// the name of the player that the bot's credentials stand for.
pub fn cancel_game_as_bot(game_id: i32, api_player_id: i32) -> (request: CancelGameRequest)
    ensures
        request == (CancelGameRequest { game_id, player_id: api_player_id }),
{
    CancelGameRequest { game_id, player_id: api_player_id }
}

/// What a player's game client said of itself when the game was to
/// start.
#[derive(Debug, Clone, PartialEq, Eq)]
pub struct PlayerClientInfo {
    pub war3_version: String,
    pub map_sha1: Vec<u8>,
}

/// What a bot is told of a player's game client.
#[derive(Debug, Clone, PartialEq, Eq)]
pub struct StartGamePlayerAck {
    pub war3_version: String,
    pub map_sha1: Vec<u8>,
}

/// The version of the game and the digest of the map, in contracts.
pub struct ClientInfoView {
    pub war3_version: Seq<char>,
    pub map_sha1: Seq<u8>,
}

impl View for PlayerClientInfo {
    type V = ClientInfoView;

    open spec fn view(&self) -> ClientInfoView {
        ClientInfoView { war3_version: self.war3_version@, map_sha1: self.map_sha1@ }
    }
}

impl View for StartGamePlayerAck {
    type V = ClientInfoView;

    open spec fn view(&self) -> ClientInfoView {
        ClientInfoView { war3_version: self.war3_version@, map_sha1: self.map_sha1@ }
    }
}

/// The entries of a map from players to what their game clients said, in
/// contracts.
pub open spec fn client_info_views(entries: Seq<(i32, PlayerClientInfo)>) -> Seq<
    (i32, ClientInfoView),
> {
    Seq::new(entries.len(), |i: int| (entries[i].0, entries[i].1@))
}

/// The entries of a map from players to what a bot is told of them, in
/// contracts.
pub open spec fn ack_views(entries: Seq<(i32, StartGamePlayerAck)>) -> Seq<(i32, ClientInfoView)> {
    Seq::new(entries.len(), |i: int| (entries[i].0, entries[i].1@))
}

/// Turns what the players' game clients said into what a bot is told:
/// entry by entry, the same player with the same version and digest.
pub fn convert_map(map: Vec<(i32, PlayerClientInfo)>) -> (acks: Vec<(i32, StartGamePlayerAck)>)
    ensures
        ack_views(acks@) == client_info_views(map@),
{
    let mut acks: Vec<(i32, StartGamePlayerAck)> = Vec::new();
    let mut i: usize = 0;
    while i < map.len()
        invariant
            i <= map@.len(),
            acks@.len() == i,
            forall|k: int|
                0 <= k < i ==> (#[trigger] acks@[k]).0 == map@[k].0 && acks@[k].1@ == map@[k].1@,
        decreases map@.len() - i,
    {
        let entry = &map[i];
        acks.push(
            (
                entry.0,
                StartGamePlayerAck {
                    war3_version: entry.1.war3_version.clone(),
                    map_sha1: entry.1.map_sha1.clone(),
                },
            ),
        );
        i = i + 1;
    }
    assert(ack_views(acks@) =~= client_info_views(map@));
    acks
}

/// How the check before a bot's game starts came out.
#[derive(Debug, Clone, PartialEq, Eq)]
pub enum StartGameCheckAsBotResult {
    /// The game starts; holds what the game clients said, where that is
    /// known.
    Started(Option<Vec<(i32, PlayerClientInfo)>>),
    /// The game does not start.
    Rejected { message: String, player_client_info_map: Vec<(i32, PlayerClientInfo)> },
}

/// The answer to a bot that asked for a game to start.
#[derive(Debug, Clone, PartialEq, Eq)]
pub struct StartGameAsBotReply {
    pub succeed: bool,
    pub error_message: String,
    pub player_ack_map: Vec<(i32, StartGamePlayerAck)>,
}

/// What the answer to a bot is, in contracts.
pub struct StartGameAsBotReplyView {
    pub succeed: bool,
    pub error_message: Seq<char>,
    pub player_ack_map: Seq<(i32, ClientInfoView)>,
}

impl View for StartGameAsBotReply {
    type V = StartGameAsBotReplyView;

    open spec fn view(&self) -> StartGameAsBotReplyView {
        StartGameAsBotReplyView {
            succeed: self.succeed,
            error_message: self.error_message@,
            player_ack_map: ack_views(self.player_ack_map@),
        }
    }
}

/// What the check before a game starts is, in contracts.
pub enum StartCheckView {
    Started(Option<Seq<(i32, ClientInfoView)>>),
    Rejected { message: Seq<char>, player_client_info_map: Seq<(i32, ClientInfoView)> },
}

impl View for StartGameCheckAsBotResult {
    type V = StartCheckView;

    open spec fn view(&self) -> StartCheckView {
        match self {
            StartGameCheckAsBotResult::Started(map) => StartCheckView::Started(
                match map {
                    Some(map) => Some(client_info_views(map@)),
                    None => None,
                },
            ),
            StartGameCheckAsBotResult::Rejected {
                message,
                player_client_info_map,
            } => StartCheckView::Rejected {
                message: message@,
                player_client_info_map: client_info_views(player_client_info_map@),
            },
        }
    }
}

/// The answer to a bot for each way the check can come out: a started
/// game succeeds, with no message and with what is known of the game
/// clients; a rejected one does not, with the reason and with what the
/// game clients said.
pub open spec fn spec_start_game_reply(check: StartCheckView) -> StartGameAsBotReplyView {
    match check {
        StartCheckView::Started(map) => StartGameAsBotReplyView {
            succeed: true,
            error_message: Seq::empty(),
            player_ack_map: match map {
                Some(map) => map,
                None => Seq::empty(),
            },
        },
        StartCheckView::Rejected { message, player_client_info_map } => StartGameAsBotReplyView {
            succeed: false,
            error_message: message,
            player_ack_map: player_client_info_map,
        },
    }
}

/// Answers a bot that asked for a game to start. `check` is how the check
/// came out, or nothing where the controller shut down before it did:
/// then the call is cancelled.
pub fn start_game_as_bot(check: Option<StartGameCheckAsBotResult>) -> (result: Result<
    StartGameAsBotReply,
    Status,
>)
    ensures
        match check {
            Some(check) => result matches Ok(reply) && reply@ == spec_start_game_reply(check@),
            None => result matches Err(status) && status.code == StatusCode::Cancelled
                && status.message@ == SHUTTING_DOWN_MESSAGE@,
        },
{
    match check {
        Some(StartGameCheckAsBotResult::Started(map)) => {
            let player_ack_map = match map {
                Some(map) => convert_map(map),
                None => {
                    let none: Vec<(i32, StartGamePlayerAck)> = Vec::new();
                    assert(ack_views(none@) =~= Seq::empty());
                    none
                },
            };
            Ok(StartGameAsBotReply { succeed: true, error_message: String::new(), player_ack_map })
        },
        Some(StartGameCheckAsBotResult::Rejected { message, player_client_info_map }) => Ok(
            StartGameAsBotReply {
                succeed: false,
                error_message: message,
                player_ack_map: convert_map(player_client_info_map),
            },
        ),
        None => Err(
            Status { code: StatusCode::Cancelled, message: String::from_str(SHUTTING_DOWN_MESSAGE) },
        ),
    }
}

/// What a caller says of a player that it wants stored.
#[derive(Debug, Clone, PartialEq, Eq)]
pub struct UpdateAndGetPlayerRequest {
    pub source: i32,
    pub name: String,
    pub source_id: String,
    pub realm: Option<String>,
}

/// What is stored of a player.
#[derive(Debug, Clone, PartialEq, Eq)]
pub struct UpsertPlayer {
    pub api_client_id: i32,
    pub source: i32,
    pub name: String,
    pub source_id: String,
    pub realm: Option<String>,
}

/// What is stored of a player, in contracts.
pub struct UpsertPlayerView {
    pub api_client_id: i32,
    pub source: i32,
    pub name: Seq<char>,
    pub source_id: Seq<char>,
    pub realm: Option<Seq<char>>,
}

impl View for UpsertPlayer {
    type V = UpsertPlayerView;

    open spec fn view(&self) -> UpsertPlayerView {
        UpsertPlayerView {
            api_client_id: self.api_client_id,
            source: self.source,
            name: self.name@,
            source_id: self.source_id@,
            realm: match self.realm {
                Some(realm) => Some(realm@),
                None => None,
            },
        }
    }
}

/// Says what is stored of a player for a caller: what the caller said of
/// the player, under the caller's own id, and in the realm that is named
/// by that id in decimal, whatever realm the caller asked for.
pub fn update_and_get_player(api_client_id: i32, request: UpdateAndGetPlayerRequest) -> (upsert:
    UpsertPlayer)
    ensures
        upsert@ == (UpsertPlayerView {
            api_client_id,
            source: request.source,
            name: request.name@,
            source_id: request.source_id@,
            realm: Some(decimal_int(api_client_id as int)),
        }),
{
    let mut realm = String::new();
    push_decimal(&mut realm, api_client_id);
    assert(realm@ =~= decimal_int(api_client_id as int));
    UpsertPlayer {
        api_client_id,
        source: request.source,
        name: request.name,
        source_id: request.source_id,
        realm: Some(realm),
    }
}

} // verus!
