//! The session with the lobby server, and what it keeps of the relay
//! nodes.

pub mod invariants;
pub mod lobby;
pub mod node;
pub mod packet;
