//! Status values shared by the relay node, the lobby handler and the game.

use vstd::prelude::*;

verus! {

/// Life cycle of a game on its relay node.
#[derive(Debug, Clone, Copy, PartialEq, Eq, Structural)]
pub enum NodeGameStatus {
    Created,
    Waiting,
    Loading,
    Running,
    Ended,
    Terminated,
}

/// What a client reports to the relay node about its own slot.
#[derive(Debug, Clone, Copy, PartialEq, Eq, Structural)]
pub enum SlotClientStatus {
    Pending,
    Connected,
    Joined,
    Loading,
    Loaded,
    Disconnected,
    Left,
}

impl NodeGameStatus {
    /// The node has begun, or finished, loading the game: a lobby that is
    /// ready may leave for the game.
    pub open spec fn spec_has_started(self) -> bool {
        self == NodeGameStatus::Loading || self == NodeGameStatus::Running
    }

    #[verifier::when_used_as_spec(spec_has_started)]
    pub fn has_started(self) -> (started: bool)
        ensures
            started == self.spec_has_started(),
    {
        match self {
            NodeGameStatus::Loading => true,
            NodeGameStatus::Running => true,
            _ => false,
        }
    }

    /// The game can still be joined over the LAN: it is created, waiting
    /// for players, or loading.
    pub open spec fn spec_is_joinable(self) -> bool {
        self == NodeGameStatus::Created || self == NodeGameStatus::Waiting || self
            == NodeGameStatus::Loading
    }

    #[verifier::when_used_as_spec(spec_is_joinable)]
    pub fn is_joinable(self) -> (joinable: bool)
        ensures
            joinable == self.spec_is_joinable(),
    {
        match self {
            NodeGameStatus::Created => true,
            NodeGameStatus::Waiting => true,
            NodeGameStatus::Loading => true,
            _ => false,
        }
    }
}

} // verus!
