use winderoo_firmware::embassy::state::StatusCache;
use winderoo_firmware::embassy::system::{
    aligned_len, compute_local_epoch, frame_settings_blob, load_runtime_state, payload_text, runtime_from_load,
    settings_header, stored_payload_len, InMemorySettingsStore, SettingsStore, SettingsStoreError,
};
use winderoo_firmware::model::StatusSnapshot;
use winderoo_firmware::settings::StoredSettings;

#[test]
fn empty_store_loads_defaults() {
    let mut store = InMemorySettingsStore::new();
    let state = load_runtime_state(&mut store, true);
    assert_eq!(state.rotations_per_day, 220);
    assert!(state.screen.equipped);
}

#[test]
fn saved_settings_are_loaded() {
    let mut store = InMemorySettingsStore::new();
    let mut settings = StoredSettings::default();
    settings.rotations_per_day = "500".to_string();
    assert_eq!(store.save(&settings), Ok(()));
    assert_eq!(store.load(), Ok(settings));
    let state = load_runtime_state(&mut store, false);
    assert_eq!(state.rotations_per_day, 500);
}

#[test]
fn invalid_or_failed_loads_fall_back_to_defaults() {
    let mut bad = StoredSettings::default();
    bad.direction = "SIDEWAYS".to_string();
    assert_eq!(runtime_from_load(Ok(bad), true).rotations_per_day, 220);
    let state = runtime_from_load(Err(SettingsStoreError::StorageFailure), true);
    assert_eq!(state.custom_wind_duration_secs, 180);
}

#[test]
fn alignment() {
    assert_eq!(aligned_len(0, 4), Some(0));
    assert_eq!(aligned_len(5, 4), Some(8));
    assert_eq!(aligned_len(8, 4), Some(8));
    assert_eq!(aligned_len(usize::MAX, 4), None);
}

#[test]
fn header_layout() {
    assert_eq!(settings_header(0x0102), [b'W', b'D', b'R', b'S', 0x02, 0x01, 0, 0]);
}

#[test]
fn framing_pads_and_checks_room() {
    let (header, body) = frame_settings_blob(b"{\"a\":1}", 4, 64).expect("fits");
    assert_eq!(header, settings_header(7));
    assert_eq!(body, b"{\"a\":1}\0".to_vec());
    assert_eq!(frame_settings_blob(b"{\"a\":1}", 4, 15), Err(SettingsStoreError::SerializationFailure));
    assert!(frame_settings_blob(b"{\"a\":1}", 4, 16).is_ok());
}

#[test]
fn stored_header_is_read_back() {
    let header = settings_header(7);
    assert_eq!(stored_payload_len(&header, 64), Some(7));
    assert_eq!(stored_payload_len(&header, 14), None);
    assert_eq!(stored_payload_len(&settings_header(0), 64), None);
    assert_eq!(stored_payload_len(&[0xff; 8], 64), None);
}

#[test]
fn payload_text_needs_utf8() {
    assert_eq!(payload_text(b"{}\0\0", 2), "{}");
    assert_eq!(payload_text(&[0xff, 0xfe], 2), "");
}

#[test]
fn local_epoch_uses_cached_offset() {
    let mut state = StoredSettings::default().to_runtime(true).unwrap();
    state.rtc.gmt_offset_secs = 3600;
    state.rtc.dst = true;
    let cache = StatusCache::new(StatusSnapshot::from_state(&state, 0, -50, "4.0.1"));
    assert_eq!(compute_local_epoch(&cache, 1000), 1000 + 7200);
}
