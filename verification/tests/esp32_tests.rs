use winderoo_firmware::esp32::{
    cache_control, cors_allow_headers, cors_allow_methods, cors_allow_origin,
    asset_meta, asset_request_path, auth_method_for, device_id, loop_due, parse_query_bool, LoopDue, WifiAuth,
};

#[test]
fn query_flags_are_read() {
    assert_eq!(parse_query_bool("/api/timer?timerEnabled=1", "timerEnabled"), Some(true));
    assert_eq!(parse_query_bool("/api/timer?timerEnabled=0", "timerEnabled"), Some(false));
    assert_eq!(parse_query_bool("/api/timer?a=1&timerEnabled=TRUE", "timerEnabled"), Some(true));
    assert_eq!(parse_query_bool("/api/timer?timerEnabled=yes", "timerEnabled"), Some(false));
}

#[test]
fn missing_query_flags() {
    assert_eq!(parse_query_bool("/api/timer", "timerEnabled"), None);
    assert_eq!(parse_query_bool("/api/timer?", "timerEnabled"), None);
    assert_eq!(parse_query_bool("/api/timer?other=1", "timerEnabled"), None);
    assert_eq!(parse_query_bool("/api/timer?timerEnabled", "timerEnabled"), None);
}

#[test]
fn first_query_match_wins() {
    assert_eq!(parse_query_bool("/x?k=1&k=0", "k"), Some(true));
    assert_eq!(parse_query_bool("/x?k=true=false", "k"), Some(true));
    assert_eq!(parse_query_bool("/x?a=1?k=1", "k"), None);
}

#[test]
fn asset_paths() {
    assert_eq!(asset_request_path("/"), Some("index.html".to_string()));
    assert_eq!(asset_request_path("/main.js?v=3"), Some("main.js".to_string()));
    assert_eq!(asset_request_path("//assets/i18n/en-US.json"), Some("assets/i18n/en-US.json".to_string()));
    assert_eq!(asset_request_path("/../secret"), None);
    assert_eq!(asset_request_path("?x=1"), Some("index.html".to_string()));
}

#[test]
fn asset_headers() {
    let js = asset_meta("js", true);
    assert_eq!((js.content_type, js.cache_control, js.content_encoding), ("application/javascript", "max-age=31536000", "gzip"));
    let html = asset_meta("html", false);
    assert_eq!((html.content_type, html.cache_control, html.content_encoding), ("text/html", "no-cache", ""));
    let other = asset_meta("bin", false);
    assert_eq!(other.content_type, "application/octet-stream");
    assert_eq!(asset_meta("jpeg", false).content_type, "image/jpeg");
    assert_eq!(asset_meta("css", false).cache_control, "max-age=31536000");
}

#[test]
fn device_ids_use_mac_suffix() {
    assert_eq!(device_id(&[0x24, 0x6f, 0x28, 0xab, 0x0c, 0xf1]), "winderoo-AB0CF1");
    assert_eq!(device_id(&[0, 0, 0, 0, 0, 0]), "winderoo-000000");
}

#[test]
fn auth_follows_password() {
    assert_eq!(auth_method_for(""), WifiAuth::Open);
    assert_eq!(auth_method_for("secret"), WifiAuth::Wpa2Personal);
}

#[test]
fn loop_schedule() {
    assert_eq!(loop_due(999, 4999), LoopDue { tick: false, publish_state: false });
    assert_eq!(loop_due(1000, 5000), LoopDue { tick: true, publish_state: true });
}

#[test]
fn response_headers() {
    assert_eq!(cors_allow_origin(), ("Access-Control-Allow-Origin", "*"));
    assert_eq!(cors_allow_methods(), ("Access-Control-Allow-Methods", "GET,POST,OPTIONS"));
    assert_eq!(cors_allow_headers().0, "Access-Control-Allow-Headers");
    assert_eq!(cache_control("no-cache"), ("Cache-Control", "no-cache"));
}
