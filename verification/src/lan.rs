//! The game as the local game client sees it over the LAN.

pub mod game;

use crate::text::{decimal_int, push_decimal};
use vstd::prelude::*;
use vstd::string::*;

verus! {

/// The name under which a game is announced on the LAN: the game's name, a
/// hyphen, and the player's id in decimal.
pub open spec fn spec_lan_game_name(game_name: Seq<char>, player_id: i32) -> Seq<char> {
    game_name + seq!['-'] + decimal_int(player_id as int)
}

/// The name under which a game is announced on the LAN.
pub fn get_lan_game_name(game_name: &str, player_id: i32) -> (name: String)
    ensures
        name@ == spec_lan_game_name(game_name@, player_id),
{
    let mut name = String::from_str(game_name);
    proof {
        reveal_strlit("-");
    }
    name.append("-");
    assert("-"@ =~= seq!['-']);
    push_decimal(&mut name, player_id);
    name
}

} // verus!
