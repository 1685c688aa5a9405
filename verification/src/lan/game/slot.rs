//! The slot table that the game client is shown, and the player ids in it.

use vstd::prelude::*;

verus! {

/// Highest slot index that still has a player id.
pub const MAX_SLOT_INDEX: usize = 254;

/// The player id of the slot at `index`: slots count from zero, player ids
/// from one.
pub open spec fn spec_index_to_player_id(index: int) -> int {
    index + 1
}

/// The player id of the slot at `index`.
pub fn index_to_player_id(index: usize) -> (player_id: u8)
    requires
        index <= MAX_SLOT_INDEX,
    ensures
        player_id == spec_index_to_player_id(index as int),
        player_id >= 1,
{
    (index + 1) as u8
}

/// One row of the slot table.
#[derive(Debug, Clone, Copy, PartialEq, Eq, Structural)]
pub struct SlotData {
    pub player_id: u8,
    pub download_status: u8,
    pub occupied: bool,
    pub computer: bool,
    pub team: u8,
    pub color: u8,
    pub race: u8,
    pub handicap: u8,
}

/// The slot table in the form the game client expects.
#[derive(Debug, Clone, PartialEq, Eq)]
pub struct SlotInfo {
    pub slots: Vec<SlotData>,
    pub random_seed: i32,
    pub num_players: u8,
}

/// What a slot table is, in contracts.
pub struct SlotInfoView {
    pub slots: Seq<SlotData>,
    pub random_seed: i32,
    pub num_players: u8,
}

impl View for SlotInfo {
    type V = SlotInfoView;

    open spec fn view(&self) -> SlotInfoView {
        SlotInfoView {
            slots: self.slots@,
            random_seed: self.random_seed,
            num_players: self.num_players,
        }
    }
}

impl SlotInfo {
    /// A copy of the table.
    pub fn duplicate(&self) -> (copy: SlotInfo)
        ensures
            copy@ == self@,
    {
        let mut slots: Vec<SlotData> = Vec::new();
        let mut i: usize = 0;
        while i < self.slots.len()
            invariant
                i <= self.slots@.len(),
                slots@ == self.slots@.take(i as int),
            decreases self.slots@.len() - i,
        {
            slots.push(self.slots[i]);
            assert(self.slots@.take(i + 1) =~= self.slots@.take(i as int).push(self.slots@[i as int]));
            i = i + 1;
        }
        assert(self.slots@.take(self.slots@.len() as int) =~= self.slots@);
        SlotInfo { slots, random_seed: self.random_seed, num_players: self.num_players }
    }
}

/// A player as the slot table names it.
#[derive(Debug, Clone, PartialEq, Eq)]
pub struct LanSlotPlayerInfo {
    pub slot_player_id: u8,
    pub name: String,
}

/// What a player entry is, in contracts.
pub struct LanSlotPlayerInfoView {
    pub slot_player_id: u8,
    pub name: Seq<char>,
}

impl View for LanSlotPlayerInfo {
    type V = LanSlotPlayerInfoView;

    open spec fn view(&self) -> LanSlotPlayerInfoView {
        LanSlotPlayerInfoView { slot_player_id: self.slot_player_id, name: self.name@ }
    }
}

/// The slot layout of one game, from the local player's side.
#[derive(Debug, PartialEq, Eq)]
pub struct LanSlotInfo {
    slot_info: SlotInfo,
    player_infos: Vec<LanSlotPlayerInfo>,
    my_slot_player_id: u8,
    stream_ob_slot: Option<usize>,
}

/// What a slot layout is, in contracts.
pub struct LanSlotInfoView {
    pub slot_info: SlotInfoView,
    pub player_infos: Seq<LanSlotPlayerInfoView>,
    pub my_slot_player_id: u8,
    pub stream_ob_slot: Option<usize>,
}

impl LanSlotInfoView {
    /// The layout is within the limits of the protocol: every player id is
    /// at least one, no more players than ids, and the observer's slot has
    /// a player id.
    pub open spec fn wf(self) -> bool {
        &&& self.player_infos.len() <= MAX_SLOT_INDEX + 1
        &&& forall|i: int|
            0 <= i < self.player_infos.len() ==> (#[trigger] self.player_infos[i]).slot_player_id
                >= 1
        &&& self.my_slot_player_id >= 1
        &&& (self.stream_ob_slot matches Some(index) ==> index <= MAX_SLOT_INDEX)
    }

    /// The player id of the stream observer, where the game has one.
    pub open spec fn ob_player_id(self) -> Option<u8> {
        match self.stream_ob_slot {
            Some(index) => Some(spec_index_to_player_id(index as int) as u8),
            None => None,
        }
    }

    /// How many players the game client must learn of: every listed
    /// player, and the stream observer.
    pub open spec fn total_players(self) -> nat {
        self.player_infos.len() + if self.stream_ob_slot is Some {
            1nat
        } else {
            0nat
        }
    }
}

/// The views of a list of player entries.
pub open spec fn player_info_views(players: Seq<LanSlotPlayerInfo>) -> Seq<LanSlotPlayerInfoView> {
    Seq::new(players.len(), |i: int| players[i]@)
}

impl View for LanSlotInfo {
    type V = LanSlotInfoView;

    closed spec fn view(&self) -> LanSlotInfoView {
        LanSlotInfoView {
            slot_info: self.slot_info@,
            player_infos: player_info_views(self.player_infos@),
            my_slot_player_id: self.my_slot_player_id,
            stream_ob_slot: self.stream_ob_slot,
        }
    }
}

impl LanSlotInfo {
    #[verifier::type_invariant]
    spec fn inv(self) -> bool {
        self@.wf()
    }

    /// A slot layout from its parts, or `None` where they are outside the
    /// limits of the protocol.
    pub fn new(
        slot_info: SlotInfo,
        player_infos: Vec<LanSlotPlayerInfo>,
        my_slot_player_id: u8,
        stream_ob_slot: Option<usize>,
    ) -> (made: Option<LanSlotInfo>)
        ensures
            made is Some <==> (LanSlotInfoView {
                slot_info: slot_info@,
                player_infos: player_info_views(player_infos@),
                my_slot_player_id,
                stream_ob_slot,
            }).wf(),
            made matches Some(info) ==> info@ == (LanSlotInfoView {
                slot_info: slot_info@,
                player_infos: player_info_views(player_infos@),
                my_slot_player_id,
                stream_ob_slot,
            }),
    {
        if player_infos.len() > MAX_SLOT_INDEX + 1 || my_slot_player_id < 1 {
            return None;
        }
        if let Some(index) = stream_ob_slot {
            if index > MAX_SLOT_INDEX {
                return None;
            }
        }
        let mut i: usize = 0;
        while i < player_infos.len()
            invariant
                i <= player_infos@.len(),
                forall|k: int| 0 <= k < i ==> (#[trigger] player_infos@[k]).slot_player_id >= 1,
            decreases player_infos@.len() - i,
        {
            if player_infos[i].slot_player_id < 1 {
                assert(player_info_views(player_infos@)[i as int].slot_player_id < 1);
                return None;
            }
            i = i + 1;
        }
        assert forall|k: int| 0 <= k < player_info_views(player_infos@).len() implies (
        #[trigger] player_info_views(player_infos@)[k]).slot_player_id >= 1 by {
            assert(player_infos@[k].slot_player_id >= 1);
        }
        Some(LanSlotInfo { slot_info, player_infos, my_slot_player_id, stream_ob_slot })
    }

    /// The slot table.
    pub fn slot_info(&self) -> (table: &SlotInfo)
        ensures
            table@ == self@.slot_info,
    {
        &self.slot_info
    }

    /// The players of the game, the local one among them.
    pub fn player_infos(&self) -> (players: &Vec<LanSlotPlayerInfo>)
        ensures
            player_info_views(players@) == self@.player_infos,
            self@.wf(),
    {
        proof {
            use_type_invariant(self);
        }
        &self.player_infos
    }

    /// The local player's id.
    pub fn my_slot_player_id(&self) -> (player_id: u8)
        ensures
            player_id == self@.my_slot_player_id,
    {
        self.my_slot_player_id
    }

    /// The slot of the stream observer, where the game has one.
    pub fn stream_ob_slot(&self) -> (slot: Option<usize>)
        ensures
            slot == self@.stream_ob_slot,
    {
        self.stream_ob_slot
    }

    /// The player id of the stream observer, where the game has one.
    pub fn ob_player_id(&self) -> (player_id: Option<u8>)
        ensures
            player_id == self@.ob_player_id(),
            self@.wf(),
    {
        proof {
            use_type_invariant(self);
        }
        match self.stream_ob_slot {
            Some(index) => Some(index_to_player_id(index)),
            None => None,
        }
    }

    /// How many players the game client must learn of.
    pub fn total_players(&self) -> (total: usize)
        ensures
            total == self@.total_players(),
            self@.wf(),
    {
        proof {
            use_type_invariant(self);
        }
        if self.stream_ob_slot.is_some() {
            self.player_infos.len() + 1
        } else {
            self.player_infos.len()
        }
    }
}

} // verus!
