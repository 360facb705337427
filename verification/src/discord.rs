//! The presence payload and the checks made before any backend
//! connection is attempted.
//!
//! The two backend integrations themselves (a raw local-IPC peer and a
//! session-based SDK peer) are connection I/O and live in the
//! surrounding application; the library owns what is sent and when a
//! client id is acceptable.

use vstd::prelude::*;
use crate::constants;
use crate::steam;
use crate::steam::SteamApp;
use crate::text;

verus! {

/// Failures establishing a backend connection that the library can
/// rule on; transport failures stay with the driver and are retried.
#[derive(Debug, Clone, Copy, PartialEq, Eq)]
pub enum ConnectionError {
    /// The configured client id is empty.
    EmptyClientId,
    /// The configured client id is not a plain number (required by the
    /// session-based backend variant).
    MalformedClientId,
}

/// Checks a client id before any connection is attempted: an empty id
/// fails immediately, nothing else is rejected here.
pub fn validate_client_id(client_id: &str) -> (r: Result<(), ConnectionError>)
    ensures
        client_id@.len() == 0 ==> r == Err::<(), ConnectionError>(ConnectionError::EmptyClientId),
        client_id@.len() != 0 ==> r == Ok::<(), ConnectionError>(()),
{
    if client_id.unicode_len() == 0 {
        Err(ConnectionError::EmptyClientId)
    } else {
        Ok(())
    }
}

/// Reads the numeric application id the session-based backend wants:
/// the client id as a plain decimal number.
pub fn parse_client_id(client_id: &str) -> (r: Result<i64, ConnectionError>)
    ensures
        text::parsed_digits(client_id@) is None ==> r == Err::<i64, ConnectionError>(
            ConnectionError::MalformedClientId,
        ),
        text::parsed_digits(client_id@) matches Some(v) ==> r == (if v <= i64::MAX {
            Ok::<i64, ConnectionError>(v as i64)
        } else {
            Err::<i64, ConnectionError>(ConnectionError::MalformedClientId)
        }),
{
    match text::parse_i64_digits(client_id) {
        Some(v) => Ok(v),
        None => Err(ConnectionError::MalformedClientId),
    }
}

/// The tuple actually shown to the user.  Built fresh on every update,
/// never partially patched.
#[derive(Debug, Clone, PartialEq, Eq)]
pub struct PresenceActivity {
    /// Fixed state line.
    pub state_text: String,
    /// The game's display name.
    pub details_text: String,
    /// Poster image reference.
    pub large_image_ref: String,
    /// Icon image reference.
    pub small_image_ref: String,
    /// The game's start timestamp in seconds.
    pub start_timestamp: i64,
}

/// Builds the activity for a running game from its resolved name and
/// icon URL: the fixed state line, the name as details, the poster and
/// icon as images, and the game's start time, nothing else.
pub fn build_activity(game: &SteamApp, game_name: &str, icon_url: &str) -> (r: PresenceActivity)
    ensures
        r.state_text@ == constants::activity_state_text_spec(),
        r.details_text@ == game_name@,
        r.large_image_ref@ == steam::poster_url_spec(game.app_id),
        r.small_image_ref@ == icon_url@,
        r.start_timestamp == game.running_since,
{
    PresenceActivity {
        state_text: String::from_str(constants::activity_state_text()),
        details_text: String::from_str(game_name),
        large_image_ref: game.get_large_poster_url(),
        small_image_ref: String::from_str(icon_url),
        start_timestamp: game.running_since,
    }
}

/// The seconds-precision timestamp lying a duration before a reference
/// instant.  The reference instant ("now", usually) is read by the
/// caller; the bounds keep the subtraction within the result type.
pub fn to_timestamp(dur_secs: u64, ref_time_secs: i64) -> (r: i64)
    requires
        dur_secs <= i64::MAX as u64,
        ref_time_secs - dur_secs >= i64::MIN,
    ensures
        r == ref_time_secs - dur_secs,
{
    ref_time_secs - (dur_secs as i64)
}

} // verus!
