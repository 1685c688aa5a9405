//! Protocol core of a relay and lobby orchestrator for custom multiplayer
//! games: the lobby-join state machine that drives a local game client, the
//! control-plane session that follows the lobby server, the node registry,
//! and the map records of the controller.
//!
//! Every function here works on plain values. Sockets, timers and channels
//! belong to the embedding program, which feeds events in and carries the
//! returned actions out.

pub mod map;
pub mod error;
pub mod types;
pub mod text;
pub mod path;
pub mod lan;
pub mod net;
pub mod grpc;
