use winderoo_firmware::embassy::wifi::{
    CredentialStore, InMemoryCredentialStore, ProvisioningConfig, WifiAction, WifiCommand, WifiCredentials,
    WifiError, WifiEvent, WifiManager,
};

fn manager() -> WifiManager {
    WifiManager::new(ProvisioningConfig::new("Winderoo Setup".to_string(), String::new()), 30)
}

fn creds(ssid: &str, password: &str) -> WifiCredentials {
    WifiCredentials::new(ssid.to_string(), password.to_string())
}

fn is_ap(action: &WifiAction) -> bool {
    matches!(action, WifiAction::StartAp(c) if c.ssid == "Winderoo Setup" && c.password.is_empty())
}

#[test]
fn start_without_saved_credentials_provisions() {
    let mut m = manager();
    assert!(matches!(m.handle(WifiEvent::Started), WifiAction::LoadSaved));
    assert!(is_ap(&m.handle(WifiEvent::Loaded(None))));
    assert!(matches!(m.handle(WifiEvent::Finished(Ok(()))), WifiAction::Wait));
    assert!(m.in_provisioning());
}

#[test]
fn start_with_saved_credentials_connects() {
    let mut m = manager();
    m.handle(WifiEvent::Started);
    match m.handle(WifiEvent::Loaded(Some(creds("Home", "pw")))) {
        WifiAction::Connect(c) => assert_eq!((c.ssid.as_str(), c.password.as_str()), ("Home", "pw")),
        _ => panic!("expected connect"),
    }
    assert!(matches!(m.handle(WifiEvent::Finished(Ok(()))), WifiAction::Wait));
    assert!(!m.in_provisioning());
}

#[test]
fn failed_saved_connect_falls_back_to_provisioning() {
    let mut m = manager();
    m.handle(WifiEvent::Started);
    m.handle(WifiEvent::Loaded(Some(creds("Home", "pw"))));
    assert!(is_ap(&m.handle(WifiEvent::Finished(Err(WifiError::ConnectionFailed)))));
}

#[test]
fn new_credentials_are_saved_then_used() {
    let mut m = manager();
    match m.handle(WifiEvent::Command(WifiCommand::SetCredentials(creds("New", "pw2")))) {
        WifiAction::SaveAndDisconnect(c) => assert_eq!(c.ssid, "New"),
        _ => panic!("expected save"),
    }
    match m.handle(WifiEvent::Finished(Err(WifiError::ConnectionFailed))) {
        WifiAction::Connect(c) => assert_eq!((c.ssid.as_str(), c.password.as_str()), ("New", "pw2")),
        _ => panic!("expected connect"),
    }
    assert!(matches!(m.handle(WifiEvent::Finished(Ok(()))), WifiAction::NotifyProvisioningSuccess));
}

#[test]
fn failed_new_credentials_return_to_provisioning() {
    let mut m = manager();
    m.handle(WifiEvent::Command(WifiCommand::SetCredentials(creds("New", "pw2"))));
    m.handle(WifiEvent::Finished(Ok(())));
    assert!(is_ap(&m.handle(WifiEvent::Finished(Err(WifiError::ConnectionFailed)))));
}

#[test]
fn forget_clears_and_provisions() {
    let mut m = manager();
    assert!(matches!(m.handle(WifiEvent::Command(WifiCommand::ForgetCredentials)), WifiAction::ClearAndDisconnect));
    assert!(is_ap(&m.handle(WifiEvent::Finished(Ok(())))));
}

#[test]
fn forced_reconnect_reloads_saved_credentials() {
    let mut m = manager();
    assert!(matches!(m.handle(WifiEvent::Command(WifiCommand::ForceReconnect)), WifiAction::Disconnect));
    assert!(matches!(m.handle(WifiEvent::Finished(Ok(()))), WifiAction::LoadSaved));
}

#[test]
fn timer_reconnects_only_outside_provisioning() {
    let mut m = manager();
    assert!(matches!(m.handle(WifiEvent::ReconnectDue { connected: true }), WifiAction::Wait));
    assert!(matches!(m.handle(WifiEvent::ReconnectDue { connected: false }), WifiAction::LoadSaved));
    m.handle(WifiEvent::Loaded(None));
    m.handle(WifiEvent::Finished(Ok(())));
    assert!(m.in_provisioning());
    assert!(matches!(m.handle(WifiEvent::ReconnectDue { connected: false }), WifiAction::Wait));
    assert!(m.in_provisioning());
}

#[test]
fn failed_access_point_keeps_waiting() {
    let mut m = manager();
    m.handle(WifiEvent::Started);
    m.handle(WifiEvent::Loaded(None));
    assert!(matches!(m.handle(WifiEvent::Finished(Err(WifiError::ProvisioningFailed))), WifiAction::Wait));
    assert!(!m.in_provisioning());
}

#[test]
fn stray_outcomes_are_dropped() {
    let mut m = manager();
    assert!(matches!(m.handle(WifiEvent::Finished(Ok(()))), WifiAction::Wait));
    assert!(matches!(m.handle(WifiEvent::Loaded(Some(creds("x", "y")))), WifiAction::Wait));
    assert_eq!(m.reconnect_interval_secs(), 30);
}

#[test]
fn in_memory_store_round_trip() {
    let mut store = InMemoryCredentialStore::new();
    assert!(store.load().is_none());
    store.save(&creds("Home", "pw"));
    let loaded = store.load().expect("saved");
    assert_eq!((loaded.ssid.as_str(), loaded.password.as_str()), ("Home", "pw"));
    store.clear();
    assert!(store.load().is_none());
}
