use winderoo_firmware::wifi_portal::credentials_from_members;
use winderoo_firmware::wifi_portal::handle_portal_submission;
use winderoo_firmware::wifi_portal::{config_portal_page, parse_wifi_payload};

#[test]
fn parse_form_body() {
    let parsed = parse_wifi_payload("ssid=MyNet&password=secret").unwrap();
    assert_eq!(parsed.0, "MyNet");
    assert_eq!(parsed.1, "secret");
}

#[test]
fn parse_form_body_decodes_plus_and_percent() {
    let parsed = parse_wifi_payload("ssid=My+Net%21&password=").unwrap();
    assert_eq!(parsed.0, "My Net!");
    assert_eq!(parsed.1, "");
}

#[test]
fn parse_json_body() {
    let parsed = parse_wifi_payload(r#"{"ssid":"Net","password":"pw"}"#).unwrap();
    assert_eq!(parsed.0, "Net");
    assert_eq!(parsed.1, "pw");
}

#[test]
fn empty_body_has_no_credentials() {
    assert_eq!(parse_wifi_payload(""), None);
    assert_eq!(parse_wifi_payload("   \n"), None);
}

#[test]
fn form_without_ssid_has_no_credentials() {
    assert_eq!(parse_wifi_payload("password=secret"), None);
}

#[test]
fn form_without_password_has_empty_password() {
    assert_eq!(parse_wifi_payload("ssid=Home"), Some(("Home".to_string(), String::new())));
}

#[test]
fn last_form_field_wins() {
    assert_eq!(
        parse_wifi_payload("ssid=A&ssid=B&password=p"),
        Some(("B".to_string(), "p".to_string()))
    );
}

#[test]
fn bad_escapes_are_kept() {
    assert_eq!(parse_wifi_payload("ssid=50%zz"), Some(("50%zz".to_string(), String::new())));
    assert_eq!(parse_wifi_payload("ssid=50%2"), Some(("50%2".to_string(), String::new())));
    assert_eq!(parse_wifi_payload("ssid=a%+9b"), Some(("a\tb".to_string(), String::new())));
}

#[test]
fn json_body_needs_string_ssid() {
    assert_eq!(parse_wifi_payload(r#"{"ssid":5}"#), None);
    assert_eq!(parse_wifi_payload(r#"{"ssid":"N"}"#), Some(("N".to_string(), String::new())));
    assert_eq!(parse_wifi_payload("{not json"), None);
}

#[test]
fn portal_page_posts_to_wifi() {
    let page = config_portal_page();
    assert!(page.starts_with("<!doctype html>"));
    assert!(page.contains("<form method=\"post\" action=\"/wifi\">"));
    assert!(page.contains("name=\"ssid\""));
}

#[test]
fn portal_submission_replies() {
    let ok = handle_portal_submission("ssid=Home&password=pw");
    assert_eq!(ok.credentials, Some(("Home".to_string(), "pw".to_string())));
    assert_eq!((ok.status, ok.message), (200, "Saved. Restarting..."));
    let bad = handle_portal_submission("nothing");
    assert_eq!(bad.credentials, None);
    assert_eq!((bad.status, bad.message), (400, "Invalid payload"));
}

#[test]
fn credentials_from_json_members() {
    assert_eq!(
        credentials_from_members(Some(Some("net".to_string())), Some(Some("pw".to_string()))),
        Some(("net".to_string(), "pw".to_string()))
    );
    assert_eq!(
        credentials_from_members(Some(Some("net".to_string())), Some(None)),
        Some(("net".to_string(), String::new()))
    );
    assert_eq!(credentials_from_members(Some(None), Some(Some("pw".to_string()))), None);
    assert_eq!(credentials_from_members(None, None), None);
}
