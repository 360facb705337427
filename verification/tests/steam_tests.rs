use discord_rpc_helper::steam::scanner::{get_games, get_running_steam_games};
use discord_rpc_helper::steam::{ProcessRecord, SteamApp, SteamProcess};
use discord_rpc_helper::text;

fn record(name: &str, environ: &[&str], cmd: &[&str], start_time: i64) -> ProcessRecord {
    ProcessRecord {
        name: name.to_string(),
        environ: environ.iter().map(|e| e.to_string()).collect(),
        cmd: cmd.iter().map(|e| e.to_string()).collect(),
        start_time,
    }
}

const GAME_EXE: &str = "/home/u/.steam/steamapps/common/Game/game.exe";
const OTHER_EXE: &str = "/home/u/.steam/steamapps/common/Game/launcher.exe";

#[test]
fn steamapp_renders_store_url() {
    let app = SteamApp {
        app_id: 1,
        path: String::from(""),
        running_since: 18,
    };

    let store_url = app.get_steam_url();

    assert_eq!(store_url, "https://store.steampowered.com/app/1/");
}

#[test]
fn steamapp_renders_poster_url() {
    let app = SteamApp {
        app_id: 440,
        path: String::from(""),
        running_since: 0,
    };

    assert_eq!(
        app.get_large_poster_url(),
        "https://cdn.cloudflare.steamstatic.com/steam/apps/440/library_600x900_x2.jpg"
    );
}

#[test]
fn scanner_reports_only_launcher_processes() {
    let snapshot = vec![
        record("systemd", &[], &["/usr/lib/systemd"], 1),
        record("reaper", &["SteamAppId=440"], &[GAME_EXE], 50),
        record("bash", &["SteamAppId=999"], &[GAME_EXE], 60),
    ];

    let games = get_running_steam_games(&snapshot);

    assert_eq!(games.len(), 1);
    assert_eq!(games[0].app_id, 440);
    assert_eq!(games[0].path, GAME_EXE);
    assert_eq!(games[0].running_since, 50);
}

#[test]
fn scanner_matches_launcher_name_case_insensitively() {
    let snapshot = vec![record("REAPER", &["SteamAppId=7"], &[GAME_EXE], 2)];

    let games = get_running_steam_games(&snapshot);

    assert_eq!(games.len(), 1);
    assert_eq!(games[0].app_id, 7);
}

#[test]
fn process_without_appid_variable_yields_sentinel() {
    let snapshot = vec![record("reaper", &["PATH=/usr/bin"], &[GAME_EXE], 3)];

    let games = get_running_steam_games(&snapshot);

    assert_eq!(games.len(), 1);
    assert_eq!(games[0].app_id, 0);
}

#[test]
fn process_with_malformed_appid_yields_sentinel() {
    let snapshot = vec![record("reaper", &["SteamAppId=oops"], &[GAME_EXE], 3)];

    let games = get_running_steam_games(&snapshot);

    assert_eq!(games.len(), 1);
    assert_eq!(games[0].app_id, 0);
}

#[test]
fn ambiguous_executable_path_is_skipped() {
    let snapshot = vec![
        record("reaper", &["SteamAppId=10"], &[GAME_EXE, OTHER_EXE], 4),
        record("reaper", &["SteamAppId=20"], &[GAME_EXE], 5),
    ];

    let games = get_running_steam_games(&snapshot);

    assert_eq!(games.len(), 1);
    assert_eq!(games[0].app_id, 20);
}

#[test]
fn process_without_exe_candidate_is_skipped() {
    let snapshot = vec![record("reaper", &["SteamAppId=10"], &["/usr/bin/reaper"], 4)];

    let games = get_running_steam_games(&snapshot);

    assert!(games.is_empty());
}

#[test]
fn get_games_wraps_the_scan() {
    let snapshot = vec![record("reaper", &["SteamAppId=42"], &[GAME_EXE], 9)];

    let games = get_games(&snapshot).unwrap();

    assert_eq!(games.len(), 1);
    assert_eq!(games[0].app_id, 42);
}

#[test]
fn steam_appid_reads_the_value_after_the_last_equals() {
    let p = record("reaper", &["SteamAppId=570"], &[], 0);

    assert_eq!(p.steam_appid(), 570);
}

#[test]
fn steam_path_rejects_multiple_candidates() {
    let p = record("reaper", &[], &[GAME_EXE, OTHER_EXE], 0);

    assert!(p.steam_path().is_err());
}

#[test]
fn steam_path_accepts_a_single_candidate() {
    let p = record("reaper", &[], &["--flag", GAME_EXE, "/usr/bin/wine"], 0);

    assert_eq!(p.steam_path().unwrap().unwrap(), GAME_EXE);
}

#[test]
fn steam_path_yields_none_without_candidates() {
    let p = record("reaper", &[], &["/usr/bin/wine"], 0);

    assert_eq!(p.steam_path().unwrap(), None);
}

#[test]
fn parse_digits_handles_bounds() {
    assert_eq!(text::parse_u32_digits("440"), Some(440));
    assert_eq!(text::parse_u32_digits("4294967295"), Some(u32::MAX));
    assert_eq!(text::parse_u32_digits("4294967296"), None);
    assert_eq!(text::parse_u32_digits(""), None);
    assert_eq!(text::parse_u32_digits("44a"), None);
    assert_eq!(text::parse_u32_digits("-1"), None);
}
