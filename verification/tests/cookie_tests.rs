use reqwest_cookie_store::CookieStore;
use url::Url;

#[test]
fn cookies_survive_a_save_and_reload_round_trip() {
    let mut store = CookieStore::new();
    let url = Url::parse("https://store.steampowered.com/").unwrap();
    store
        .parse("sessionid=abc123; Path=/; Max-Age=86400", &url)
        .unwrap();
    store
        .parse("birthtime=631152000; Path=/; Max-Age=86400", &url)
        .unwrap();

    let mut buf: Vec<u8> = Vec::new();
    store.save_json(&mut buf).unwrap();

    let reloaded = CookieStore::load_json(&buf[..]).unwrap();

    let session = reloaded.get("store.steampowered.com", "/", "sessionid").unwrap();
    assert_eq!(session.value(), "abc123");
    let birthtime = reloaded.get("store.steampowered.com", "/", "birthtime").unwrap();
    assert_eq!(birthtime.value(), "631152000");
}

#[test]
fn reload_keeps_the_domain_path_name_keying() {
    let mut store = CookieStore::new();
    let url = Url::parse("https://store.steampowered.com/").unwrap();
    store
        .parse("sessionid=abc123; Path=/; Max-Age=86400", &url)
        .unwrap();

    let mut buf: Vec<u8> = Vec::new();
    store.save_json(&mut buf).unwrap();
    let reloaded = CookieStore::load_json(&buf[..]).unwrap();

    assert!(reloaded.get("store.steampowered.com", "/", "missing").is_none());
    assert!(reloaded.get("example.com", "/", "sessionid").is_none());
}
