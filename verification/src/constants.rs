//! The fixed names, markers and URLs that the helper's rules are built on.
//!
//! Every textual constant is given twice: a spec function naming its view,
//! and an executable function returning the literal, so that contracts can
//! speak of the text while executable code obtains it.

use vstd::prelude::*;

verus! {

/// Sentinel app id meaning "no game" / "nothing displayed".
pub const NO_APPID: u32 = 0;

/// Seconds slept between two polling ticks.
pub const POLL_INTERVAL_SECS: u64 = 10;

/// Seconds slept after a failed connect or a failed liveness probe.
pub const BACKOFF_SECS: u64 = 60;

/// Name of the launcher process that supervises a game under the
/// compatibility layer; the scanner filters the snapshot by this name,
/// case-insensitively.
pub open spec fn launcher_name_spec() -> Seq<char> {
    "reaper"@
}

pub fn launcher_name() -> (r: &'static str)
    ensures
        r@ == launcher_name_spec(),
{
    "reaper"
}

/// Prefix of the environment entry holding a game's numeric app id.
pub open spec fn appid_env_key_spec() -> Seq<char> {
    "SteamAppId="@
}

pub fn appid_env_key() -> (r: &'static str)
    ensures
        r@ == appid_env_key_spec(),
{
    "SteamAppId="
}

/// Fragment that a command-line argument must contain to count as a game
/// executable path.
pub open spec fn game_path_fragment_spec() -> Seq<char> {
    "steamapps"@
}

pub fn game_path_fragment() -> (r: &'static str)
    ensures
        r@ == game_path_fragment_spec(),
{
    "steamapps"
}

/// Suffix that a command-line argument must end with to count as a game
/// executable path.
pub open spec fn exe_suffix_spec() -> Seq<char> {
    ".exe"@
}

pub fn exe_suffix() -> (r: &'static str)
    ensures
        r@ == exe_suffix_spec(),
{
    ".exe"
}

/// Directory name the helper owns under the cache root.
pub open spec fn app_name_spec() -> Seq<char> {
    "discord-rpc-helper"@
}

pub fn app_name() -> (r: &'static str)
    ensures
        r@ == app_name_spec(),
{
    "discord-rpc-helper"
}

/// Subdirectory holding the cached store pages.
pub open spec fn cache_dir_spec() -> Seq<char> {
    "cache"@
}

pub fn cache_dir() -> (r: &'static str)
    ensures
        r@ == cache_dir_spec(),
{
    "cache"
}

/// File name under which the session cookie jar is persisted.
pub open spec fn cookie_store_file_spec() -> Seq<char> {
    "cookies.json"@
}

pub fn cookie_store_file() -> (r: &'static str)
    ensures
        r@ == cookie_store_file_spec(),
{
    "cookies.json"
}

/// Selector matching the element that holds a game's display name.
pub open spec fn name_selector_spec() -> Seq<char> {
    "#appHubAppName"@
}

pub fn name_selector() -> (r: &'static str)
    ensures
        r@ == name_selector_spec(),
{
    "#appHubAppName"
}

/// Selector matching the store page's app icon image.
pub open spec fn icon_selector_spec() -> Seq<char> {
    "div.apphub_AppIcon img"@
}

pub fn icon_selector() -> (r: &'static str)
    ensures
        r@ == icon_selector_spec(),
{
    "div.apphub_AppIcon img"
}

/// Selector whose presence marks an age-gate interstitial page.
pub open spec fn agegate_selector_spec() -> Seq<char> {
    "div.agegate_birthday_selector"@
}

pub fn agegate_selector() -> (r: &'static str)
    ensures
        r@ == agegate_selector_spec(),
{
    "div.agegate_birthday_selector"
}

/// Base of the age-confirmation endpoint; the app id is appended.
pub open spec fn ageset_base_url_spec() -> Seq<char> {
    "https://store.steampowered.com/agecheckset/app/"@
}

pub fn ageset_base_url() -> (r: &'static str)
    ensures
        r@ == ageset_base_url_spec(),
{
    "https://store.steampowered.com/agecheckset/app/"
}

/// Name of the session cookie required by the age-confirmation flow.
pub open spec fn session_cookie_name_spec() -> Seq<char> {
    "sessionid"@
}

pub fn session_cookie_name() -> (r: &'static str)
    ensures
        r@ == session_cookie_name_spec(),
{
    "sessionid"
}

/// Domain the session cookie belongs to.
pub open spec fn session_cookie_domain_spec() -> Seq<char> {
    "store.steampowered.com"@
}

pub fn session_cookie_domain() -> (r: &'static str)
    ensures
        r@ == session_cookie_domain_spec(),
{
    "store.steampowered.com"
}

/// Prefix of a game's public store page URL; the app id and a trailing
/// slash are appended.
pub open spec fn store_url_prefix_spec() -> Seq<char> {
    "https://store.steampowered.com/app/"@
}

pub fn store_url_prefix() -> (r: &'static str)
    ensures
        r@ == store_url_prefix_spec(),
{
    "https://store.steampowered.com/app/"
}

/// Prefix of the poster image URL; the app id and the poster suffix are
/// appended.
pub open spec fn poster_url_prefix_spec() -> Seq<char> {
    "https://cdn.cloudflare.steamstatic.com/steam/apps/"@
}

pub fn poster_url_prefix() -> (r: &'static str)
    ensures
        r@ == poster_url_prefix_spec(),
{
    "https://cdn.cloudflare.steamstatic.com/steam/apps/"
}

/// Suffix of the poster image URL.
pub open spec fn poster_url_suffix_spec() -> Seq<char> {
    "/library_600x900_x2.jpg"@
}

pub fn poster_url_suffix() -> (r: &'static str)
    ensures
        r@ == poster_url_suffix_spec(),
{
    "/library_600x900_x2.jpg"
}

/// State line shown in the presence activity.
pub open spec fn activity_state_text_spec() -> Seq<char> {
    "Playing on Linux using Proton"@
}

pub fn activity_state_text() -> (r: &'static str)
    ensures
        r@ == activity_state_text_spec(),
{
    "Playing on Linux using Proton"
}

} // verus!
