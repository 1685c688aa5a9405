//! Errors that end a session.

use crate::net::packet::PacketTypeId;
use vstd::prelude::*;
use vstd::string::*;

verus! {

/// Why the lobby server turned a connection request down.
#[derive(Debug, Clone, Copy, PartialEq, Eq, Structural)]
pub enum RejectReason {
    Unknown,
    ClientVersionTooOld,
    InvalidToken,
}

/// The errors of the protocol core.
#[derive(Debug, Clone, Copy, PartialEq, Eq, Structural)]
pub enum Error {
    /// The lobby server rejected the connection request.
    ConnectionRequestRejected(RejectReason),
    /// The peer closed a stream that was being read.
    StreamClosed,
    /// The task that feeds a watched value is gone.
    TaskCancelled,
    /// The game client connected over IPv6.
    Ipv6NotSupported,
    /// A packet of the game client whose type the current phase does not
    /// accept; holds the type id.
    UnexpectedPacket(u8),
    /// A packet of the lobby server of a kind that is not expected.
    UnexpectedPacketTypeId(PacketTypeId),
    /// The token for the relay node is malformed.
    InvalidNodeToken,
    /// A message lacks a field that must be there.
    ValueNotPresent,
    /// A number that names no variant of the enumeration it stands for.
    EnumDiscriminantNotFound(i32),
    /// A node was selected that the registry does not hold.
    NodeNotFound(i32),
}

impl Error {
    /// A short text for the error, as it is shown to the user.
    pub fn message(&self) -> (text: String)
        ensures
            text@ == error_text(*self),
    {
        match self {
            Error::ConnectionRequestRejected(RejectReason::Unknown) => String::from_str(
                "connection request rejected: unknown",
            ),
            Error::ConnectionRequestRejected(RejectReason::ClientVersionTooOld) => String::from_str(
                "connection request rejected: client version too old",
            ),
            Error::ConnectionRequestRejected(RejectReason::InvalidToken) => String::from_str(
                "connection request rejected: invalid token",
            ),
            Error::StreamClosed => String::from_str("stream closed unexpectedly"),
            Error::TaskCancelled => String::from_str("task cancelled"),
            Error::Ipv6NotSupported => String::from_str("ipv6 is not supported"),
            Error::UnexpectedPacket(_) => String::from_str("unexpected packet"),
            Error::UnexpectedPacketTypeId(_) => String::from_str("unexpected packet type id"),
            Error::InvalidNodeToken => String::from_str("invalid node token"),
            Error::ValueNotPresent => String::from_str("value not present"),
            Error::EnumDiscriminantNotFound(_) => String::from_str("enum discriminant not found"),
            Error::NodeNotFound(_) => String::from_str("node not found"),
        }
    }
}

/// The text of [`Error::message`].
pub open spec fn error_text(e: Error) -> Seq<char> {
    match e {
        Error::ConnectionRequestRejected(RejectReason::Unknown) => "connection request rejected: unknown"@,
        Error::ConnectionRequestRejected(RejectReason::ClientVersionTooOld) => "connection request rejected: client version too old"@,
        Error::ConnectionRequestRejected(RejectReason::InvalidToken) => "connection request rejected: invalid token"@,
        Error::StreamClosed => "stream closed unexpectedly"@,
        Error::TaskCancelled => "task cancelled"@,
        Error::Ipv6NotSupported => "ipv6 is not supported"@,
        Error::UnexpectedPacket(_) => "unexpected packet"@,
        Error::UnexpectedPacketTypeId(_) => "unexpected packet type id"@,
        Error::InvalidNodeToken => "invalid node token"@,
        Error::ValueNotPresent => "value not present"@,
        Error::EnumDiscriminantNotFound(_) => "enum discriminant not found"@,
        Error::NodeNotFound(_) => "node not found"@,
    }
}

} // verus!
