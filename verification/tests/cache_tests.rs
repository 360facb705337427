use std::collections::HashMap;

use discord_rpc_helper::steam::cache::{
    age_form, ageset_url, DocumentCache, DocumentCacheBuilder, FetchAction, FetchEvent,
    PageFetch, ResolverError,
};

const STORE_URL: &str = "https://store.steampowered.com/app/440/";

const PLAIN_PAGE: &str = "<html><body>\
    <div id=\"appHubAppName\">Team Fortress 2</div>\
    <div class=\"apphub_AppIcon\"><img src=\"https://cdn.example/icon.jpg\"></div>\
    </body></html>";

const GATED_PAGE: &str = "<html><body>\
    <div class=\"agegate_birthday_selector\">born when?</div>\
    </body></html>";

#[test]
fn cache_path_resolves_under_the_root() {
    let cache = DocumentCache::new("/tmp/pages".to_string());

    let path = cache.get_cache_path(STORE_URL).unwrap();

    assert_eq!(path, "/tmp/pages/440.html");
}

#[test]
fn url_without_numeric_segment_is_invalid() {
    let cache = DocumentCache::new("/tmp/pages".to_string());

    let err = cache.get_cache_path("https://store.steampowered.com/about/").unwrap_err();

    assert_eq!(err, ResolverError::InvalidUrl);
}

#[test]
fn unparsable_url_is_invalid() {
    assert_eq!(
        DocumentCache::get_appid_from_url("not a url"),
        Err(ResolverError::InvalidUrl)
    );
}

#[test]
fn appid_is_the_first_numeric_segment() {
    assert_eq!(DocumentCache::get_appid_from_url(STORE_URL), Ok(440));
    assert_eq!(
        DocumentCache::get_appid_from_url("https://store.steampowered.com/app/570/Dota_2/"),
        Ok(570)
    );
}

#[test]
fn get_name_reads_the_single_name_element() {
    let cache = DocumentCache::new("/tmp/pages".to_string());

    assert_eq!(cache.get_name(PLAIN_PAGE).unwrap(), "Team Fortress 2");
}

#[test]
fn get_name_decodes_entities() {
    let cache = DocumentCache::new("/tmp/pages".to_string());
    let page = "<html><body><div id=\"appHubAppName\">Tom &amp; Jerry</div></body></html>";

    assert_eq!(cache.get_name(page).unwrap(), "Tom & Jerry");
}

#[test]
fn get_name_without_match_is_not_found() {
    let cache = DocumentCache::new("/tmp/pages".to_string());

    assert_eq!(cache.get_name(GATED_PAGE), Err(ResolverError::NotFound));
}

#[test]
fn get_name_with_two_matches_is_ambiguous() {
    let cache = DocumentCache::new("/tmp/pages".to_string());
    let page = "<html><body>\
        <div id=\"appHubAppName\">One</div>\
        <div id=\"appHubAppName\">Two</div>\
        </body></html>";

    assert_eq!(cache.get_name(page), Err(ResolverError::Ambiguous));
}

#[test]
fn get_appicon_reads_the_image_source() {
    let cache = DocumentCache::new("/tmp/pages".to_string());

    assert_eq!(cache.get_appicon(PLAIN_PAGE).unwrap(), "https://cdn.example/icon.jpg");
}

#[test]
fn get_appicon_without_image_is_not_found() {
    let cache = DocumentCache::new("/tmp/pages".to_string());

    assert_eq!(cache.get_appicon(GATED_PAGE), Err(ResolverError::NotFound));
}

/// Drives one whole page resolution against an in-memory "filesystem"
/// and a fixed HTTP answer, counting the downloads performed.
fn drive(
    cache: &DocumentCache,
    files: &mut HashMap<String, String>,
    http_body: &str,
    downloads: &mut usize,
) -> Result<String, ResolverError> {
    let (mut pf, mut action) = cache.start_fetch(STORE_URL)?;
    loop {
        let event = match action {
            FetchAction::CheckCache => match files.get(&pf.cache_path) {
                Some(content) => FetchEvent::CacheFile(Some(content.clone())),
                None => FetchEvent::CacheFile(None),
            },
            FetchAction::Download => {
                *downloads += 1;
                FetchEvent::Fetched(http_body.to_string())
            }
            FetchAction::ReadCookie => FetchEvent::Cookie(None),
            FetchAction::ConfirmGate(_) => FetchEvent::Confirmed,
            FetchAction::WriteCache => {
                let doc = pf.pending_document().unwrap().clone();
                files.insert(pf.cache_path.clone(), doc);
                FetchEvent::Written
            }
            FetchAction::Done(doc) => return Ok(doc),
            FetchAction::Failed(e) => return Err(e),
        };
        action = pf.on_event(event);
    }
}

#[test]
fn second_resolution_is_served_from_the_cache() {
    let cache = DocumentCache::new("/tmp/pages".to_string());
    let mut files: HashMap<String, String> = HashMap::new();
    let mut downloads: usize = 0;

    let first = drive(&cache, &mut files, PLAIN_PAGE, &mut downloads).unwrap();
    assert_eq!(downloads, 1);
    assert_eq!(first, PLAIN_PAGE);
    assert_eq!(files.get("/tmp/pages/440.html").unwrap(), PLAIN_PAGE);

    let second = drive(&cache, &mut files, "unreached", &mut downloads).unwrap();
    assert_eq!(downloads, 1, "the second resolution must not download");
    assert_eq!(second, first, "cached content must be byte-identical");
}

#[test]
fn gate_without_session_cookie_fails_hard() {
    let cache = DocumentCache::new("/tmp/pages".to_string());
    let mut files: HashMap<String, String> = HashMap::new();
    let mut downloads: usize = 0;

    let err = drive(&cache, &mut files, GATED_PAGE, &mut downloads).unwrap_err();

    assert_eq!(err, ResolverError::MissingSessionCookie);
    assert!(files.is_empty(), "a gated page must not be cached");
}

#[test]
fn gated_page_confirms_and_refetches_once() {
    let cache = DocumentCache::new("/tmp/pages".to_string());
    let (mut pf, action) = cache.start_fetch(STORE_URL).unwrap();
    assert!(matches!(action, FetchAction::CheckCache));

    let action = pf.on_event(FetchEvent::CacheFile(None));
    assert!(matches!(action, FetchAction::Download));

    let action = pf.on_event(FetchEvent::Fetched(GATED_PAGE.to_string()));
    assert!(matches!(action, FetchAction::ReadCookie));

    let action = pf.on_event(FetchEvent::Cookie(Some("abc123".to_string())));
    match &action {
        FetchAction::ConfirmGate(sid) => assert_eq!(sid, "abc123"),
        other => panic!("expected the confirmation, got {:?}", other_kind(other)),
    }

    let action = pf.on_event(FetchEvent::Confirmed);
    assert!(matches!(action, FetchAction::Download));

    let action = pf.on_event(FetchEvent::Fetched(PLAIN_PAGE.to_string()));
    assert!(matches!(action, FetchAction::WriteCache));
    assert_eq!(pf.pending_document().unwrap(), PLAIN_PAGE);

    let action = pf.on_event(FetchEvent::Written);
    match action {
        FetchAction::Done(doc) => assert_eq!(doc, PLAIN_PAGE),
        other => panic!("expected the document, got {:?}", other_kind(&other)),
    }
}

fn other_kind(a: &FetchAction) -> &'static str {
    match a {
        FetchAction::CheckCache => "CheckCache",
        FetchAction::Download => "Download",
        FetchAction::ReadCookie => "ReadCookie",
        FetchAction::ConfirmGate(_) => "ConfirmGate",
        FetchAction::WriteCache => "WriteCache",
        FetchAction::Done(_) => "Done",
        FetchAction::Failed(_) => "Failed",
    }
}

#[test]
fn page_still_gated_after_confirmation_fails() {
    let cache = DocumentCache::new("/tmp/pages".to_string());
    let (mut pf, _) = cache.start_fetch(STORE_URL).unwrap();

    pf.on_event(FetchEvent::CacheFile(None));
    pf.on_event(FetchEvent::Fetched(GATED_PAGE.to_string()));
    pf.on_event(FetchEvent::Cookie(Some("abc123".to_string())));
    pf.on_event(FetchEvent::Confirmed);
    let action = pf.on_event(FetchEvent::Fetched(GATED_PAGE.to_string()));

    assert!(matches!(action, FetchAction::Failed(ResolverError::GateNotCleared)));
}

#[test]
fn transport_failures_surface_as_errors() {
    let cache = DocumentCache::new("/tmp/pages".to_string());

    let (mut pf, _) = cache.start_fetch(STORE_URL).unwrap();
    pf.on_event(FetchEvent::CacheFile(None));
    let action = pf.on_event(FetchEvent::FetchFailed("connection reset".to_string()));
    assert!(matches!(action, FetchAction::Failed(ResolverError::Network(_))));

    let (mut pf, _) = cache.start_fetch(STORE_URL).unwrap();
    let action = pf.on_event(FetchEvent::CacheReadFailed("permission denied".to_string()));
    assert!(matches!(action, FetchAction::Failed(ResolverError::Filesystem(_))));
}

#[test]
fn builds_with_specced_location() {
    let builder = DocumentCacheBuilder::new().with_location("./");

    let result = builder.build(None);

    assert!(result.is_ok());
    assert_eq!(result.unwrap().location, "./discord-rpc-helper/cache");
}

#[test]
fn builds_with_runtime_dir_fallback() {
    let builder = DocumentCacheBuilder::new();

    let cache = builder.build(Some("/run/user/1000".to_string())).unwrap();

    assert_eq!(cache.location, "/run/user/1000/discord-rpc-helper/cache");
}

#[test]
fn build_without_any_location_fails() {
    let result = DocumentCacheBuilder::new().build(None);

    assert_eq!(result.unwrap_err(), ResolverError::NoCacheLocation);
}

#[test]
fn build_keeps_an_existing_helper_directory() {
    let cache = DocumentCacheBuilder::new()
        .with_location("/data/discord-rpc-helper/")
        .build(None)
        .unwrap();

    assert_eq!(cache.location, "/data/discord-rpc-helper/cache");
}

#[test]
fn age_form_holds_the_placeholder_birth_date() {
    let form = age_form("abc123".to_string());

    assert_eq!(form.session_id, "abc123");
    assert_eq!(form.age_day, "1");
    assert_eq!(form.age_month, "January");
    assert_eq!(form.age_year, "1990");
}

#[test]
fn ageset_url_names_the_app() {
    assert_eq!(
        ageset_url(440),
        "https://store.steampowered.com/agecheckset/app/440"
    );
}

#[test]
fn fetch_state_is_not_disturbed_by_url_fields() {
    let cache = DocumentCache::new("/tmp/pages".to_string());
    let (pf, _) = cache.start_fetch(STORE_URL).unwrap();
    let PageFetch { url, cache_path, app_id, .. } = pf;

    assert_eq!(url, STORE_URL);
    assert_eq!(cache_path, "/tmp/pages/440.html");
    assert_eq!(app_id, 440);
}
