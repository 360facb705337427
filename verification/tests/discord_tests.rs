use discord_rpc_helper::discord::{
    build_activity, parse_client_id, to_timestamp, validate_client_id, ConnectionError,
};
use discord_rpc_helper::steam::SteamApp;

#[test]
fn empty_client_id_is_rejected_immediately() {
    assert_eq!(validate_client_id(""), Err(ConnectionError::EmptyClientId));
    assert_eq!(validate_client_id("5456"), Ok(()));
}

#[test]
fn client_id_parses_as_a_plain_number() {
    assert_eq!(parse_client_id("5456"), Ok(5456));
    assert_eq!(parse_client_id("oops"), Err(ConnectionError::MalformedClientId));
    assert_eq!(parse_client_id(""), Err(ConnectionError::MalformedClientId));
}

#[test]
fn activity_is_built_fresh_from_the_game() {
    let game = SteamApp {
        app_id: 440,
        path: "/games/tf2.exe".to_string(),
        running_since: 1234,
    };

    let activity = build_activity(&game, "Team Fortress 2", "https://cdn.example/icon.jpg");

    assert_eq!(activity.state_text, "Playing on Linux using Proton");
    assert_eq!(activity.details_text, "Team Fortress 2");
    assert_eq!(
        activity.large_image_ref,
        "https://cdn.cloudflare.steamstatic.com/steam/apps/440/library_600x900_x2.jpg"
    );
    assert_eq!(activity.small_image_ref, "https://cdn.example/icon.jpg");
    assert_eq!(activity.start_timestamp, 1234);
}

#[test]
fn timestamp_lies_the_duration_before_the_reference() {
    assert_eq!(to_timestamp(5, 100), 95);
    assert_eq!(to_timestamp(0, 100), 100);
    assert_eq!(to_timestamp(100, 50), -50);
}
