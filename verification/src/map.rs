//! Map records kept by the controller.

use vstd::prelude::*;
use vstd::slice::slice_to_vec;

verus! {

/// Number of bytes in a SHA-1 digest.
pub const SHA1_LEN: usize = 20;

/// A playable map as the controller describes it to its clients.
#[derive(Debug, Clone, PartialEq, Eq)]
pub struct GameMap {
    pub sha1: MapSha1,
    pub checksum: u32,
    pub name: String,
    pub description: String,
    pub author: String,
    pub path: String,
    pub width: u32,
    pub height: u32,
    pub players: Vec<MapPlayer>,
    pub forces: Vec<MapForce>,
    pub twelve_p: bool,
}

/// The SHA-1 digest of a map file.
#[derive(Debug, Clone, PartialEq, Eq)]
pub struct MapSha1(pub [u8; 20]);

/// The digest that a byte string stands for: its first twenty bytes, padded
/// with zeros at the end when it is shorter.
pub open spec fn sha1_of_bytes(value: Seq<u8>) -> Seq<u8> {
    Seq::new(
        SHA1_LEN as nat,
        |i: int|
            if i < value.len() {
                value[i]
            } else {
                0u8
            },
    )
}

impl View for MapSha1 {
    type V = Seq<u8>;

    open spec fn view(&self) -> Seq<u8> {
        self.0@
    }
}

impl MapSha1 {
    /// The digest as a vector of twenty bytes.
    pub fn to_vec(&self) -> (bytes: Vec<u8>)
        ensures
            bytes@ == self@,
            bytes@.len() == SHA1_LEN,
    {
        slice_to_vec(self.0.as_slice())
    }

    /// Reads a digest from the bytes of a message field. Longer input is cut
    /// after twenty bytes, shorter input is padded with zeros; no input is
    /// rejected.
    pub fn unpack(value: Vec<u8>) -> (sha1: MapSha1)
        ensures
            sha1@ == sha1_of_bytes(value@),
    {
        let mut bytes: [u8; 20] = [0u8; 20];
        let n: usize = if value.len() >= SHA1_LEN {
            SHA1_LEN
        } else {
            value.len()
        };
        let mut i: usize = 0;
        while i < n
            invariant
                i <= n,
                n <= SHA1_LEN,
                n <= value@.len(),
                forall|k: int| 0 <= k < i ==> bytes@[k] == value@[k],
                forall|k: int| i <= k < SHA1_LEN ==> bytes@[k] == 0u8,
            decreases n - i,
        {
            bytes[i] = value[i];
            i = i + 1;
        }
        let sha1 = MapSha1(bytes);
        assert(sha1@ =~= sha1_of_bytes(value@));
        sha1
    }

    /// The bytes that go into a message field for this digest.
    pub fn pack(self) -> (bytes: Vec<u8>)
        ensures
            bytes@ == self@,
            bytes@.len() == SHA1_LEN,
    {
        self.to_vec()
    }
}

/// Packing a digest and reading it back gives the same digest.
pub proof fn lemma_unpack_of_pack(sha1: MapSha1)
    ensures
        sha1_of_bytes(sha1@) == sha1@,
{
    assert(sha1_of_bytes(sha1@) =~= sha1@);
}

/// Reading exactly twenty bytes and packing them again gives the same bytes.
pub proof fn lemma_pack_of_unpack(value: Seq<u8>)
    requires
        value.len() == SHA1_LEN,
    ensures
        sha1_of_bytes(value) == value,
{
    assert(sha1_of_bytes(value) =~= value);
}

/// A player slot that the map defines.
#[derive(Debug, Clone, PartialEq, Eq)]
pub struct MapPlayer {
    pub name: String,
    pub player_type: u32,
    pub race: u32,
    pub flags: u32,
}

/// A force (team) that the map defines.
#[derive(Debug, Clone, PartialEq, Eq)]
pub struct MapForce {
    pub name: String,
    pub flags: u32,
    pub player_set: u32,
}

} // verus!
