//! Player-side boundary checks: the parts of the bus listener's work that
//! are plain computation on plain values.
//!
//! The listener itself — subscribing to signals, reading typed values out
//! of bus messages — lives outside this crate; it hands the raw strings
//! and integers in here to be validated before they may reach the reducer.

use vstd::prelude::*;
use vstd::string::*;

use crate::events::PlaybackStatus;
use crate::events::PlayerEvent;

verus! {

/// Maps the player's `PlaybackStatus` property string to a status; any
/// other string is rejected at this boundary.
pub fn parse_playback_status(playback_status: &str) -> (r: Result<PlaybackStatus, String>)
    ensures
        playback_status@ == "Playing"@ ==> r == Ok::<PlaybackStatus, String>(
            PlaybackStatus::Playing,
        ),
        playback_status@ == "Paused"@ ==> r == Ok::<PlaybackStatus, String>(
            PlaybackStatus::Paused,
        ),
        playback_status@ == "Stopped"@ ==> r == Ok::<PlaybackStatus, String>(
            PlaybackStatus::Stopped,
        ),
        r is Err <==> playback_status@ != "Playing"@ && playback_status@ != "Paused"@
            && playback_status@ != "Stopped"@,
{
    proof {
        reveal_strlit("Playing");
        reveal_strlit("Paused");
        reveal_strlit("Stopped");
        assert("Playing"@ != "Paused"@ && "Playing"@ != "Stopped"@ && "Paused"@ != "Stopped"@)
            by {
            assert("Paused"@.len() == 6 && "Playing"@.len() == 7);
            assert("Playing"@[0] == 'P' && "Stopped"@[0] == 'S');
        }
    }
    let s = String::from_str(playback_status);
    if s == String::from_str("Playing") {
        Ok(PlaybackStatus::Playing)
    } else if s == String::from_str("Paused") {
        Ok(PlaybackStatus::Paused)
    } else if s == String::from_str("Stopped") {
        Ok(PlaybackStatus::Stopped)
    } else {
        Err(String::from_str("Unknown playback status"))
    }
}

/// Validates the `Position` property, which the bus delivers as a signed
/// microsecond count: a negative position is malformed and is rejected
/// here, so the reducer never sees one.
pub fn parse_player_position(position_us: i64) -> (r: Result<u64, String>)
    ensures
        position_us >= 0 ==> r == Ok::<u64, String>(position_us as u64),
        r is Err <==> position_us < 0,
{
    if position_us >= 0 {
        Ok(position_us as u64)
    } else {
        Err(String::from_str("Wrong position value"))
    }
}

/// Classifies a bus name-ownership change, as the listener's signal
/// handler does: a change of another name is no event of ours; for the
/// player's own bus name, an empty old owner means the player shut down,
/// and an empty new owner means a (re)start under `name`.
pub fn classify_name_owner_change(
    name: String,
    old_owner: &String,
    new_owner: &String,
    player_bus: &String,
) -> (r: Option<PlayerEvent>)
    ensures
        name@ != player_bus@ ==> r is None,
        name@ == player_bus@ && old_owner@.len() == 0 ==> (r matches Some(e) && e
            is PlayerShutDown),
        name@ == player_bus@ && old_owner@.len() != 0 && new_owner@.len() == 0 ==> (r matches Some(
            e,
        ) && e matches PlayerEvent::PlayerStarted { player_owner_name } && player_owner_name@
            == name@),
        name@ == player_bus@ && old_owner@.len() != 0 && new_owner@.len() != 0 ==> r is None,
{
    if name.eq(player_bus) {
        if old_owner.as_str().is_empty() {
            Some(PlayerEvent::PlayerShutDown)
        } else if new_owner.as_str().is_empty() {
            Some(PlayerEvent::PlayerStarted { player_owner_name: name })
        } else {
            None
        }
    } else {
        None
    }
}

} // verus!
