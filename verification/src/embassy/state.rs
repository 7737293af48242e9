//! Shared state caches used across the runtime's tasks: the latest status
//! snapshot, the Wi-Fi status, and the cross-task request signals.
//!
//! The values here are plain owned state; a runtime that shares them between
//! tasks puts each behind its own lock.

use vstd::prelude::*;

use crate::model::{SettingsSnapshot, SettingsSnapshotModel, StatusSnapshot, StatusSnapshotModel};

verus! {

/// Cache of the latest status snapshot for HTTP and system tasks.
#[derive(Debug)]
pub struct StatusCache {
    current: StatusSnapshot,
}

impl View for StatusCache {
    type V = StatusSnapshotModel;

    closed spec fn view(&self) -> StatusSnapshotModel {
        self.current@
    }
}

impl StatusCache {
    /// Create a new cache seeded with the provided snapshot.
    pub fn new(initial: StatusSnapshot) -> (c: Self)
        ensures
            c@ == initial@,
    {
        StatusCache { current: initial }
    }

    /// Replace the stored snapshot with a new value.
    pub fn update(&mut self, snapshot: StatusSnapshot)
        ensures
            final(self)@ == snapshot@,
    {
        self.current = snapshot;
    }

    /// Fetch a clone of the latest snapshot.
    pub fn snapshot(&self) -> (s: StatusSnapshot)
        ensures
            s@ == self@,
    {
        self.current.clone()
    }
}

/// Wi-Fi status shared with the controller for API responses.
#[derive(Debug)]
pub struct WifiStatus {
    connected: bool,
    rssi_db: i32,
}

impl WifiStatus {
    /// Whether the station is connected.
    pub closed spec fn connected(&self) -> bool {
        self.connected
    }

    /// The last RSSI reading in dB.
    pub closed spec fn rssi(&self) -> i32 {
        self.rssi_db
    }

    /// A status block that starts disconnected, at -100 dB.
    pub fn new() -> (s: Self)
        ensures
            !s.connected(),
            s.rssi() == -100,
    {
        WifiStatus { connected: false, rssi_db: -100 }
    }

    /// Update the connection flag.
    pub fn set_connected(&mut self, connected: bool)
        ensures
            final(self).connected() == connected,
            final(self).rssi() == old(self).rssi(),
    {
        self.connected = connected;
    }

    /// Update the current RSSI reading in dB.
    pub fn set_rssi_db(&mut self, rssi_db: i32)
        ensures
            final(self).rssi() == rssi_db,
            final(self).connected() == old(self).connected(),
    {
        self.rssi_db = rssi_db;
    }

    /// Read the current connection flag.
    pub fn is_connected(&self) -> (c: bool)
        ensures
            c == self.connected(),
    {
        self.connected
    }

    /// Read the current RSSI reading in dB.
    pub fn rssi_db(&self) -> (r: i32)
        ensures
            r == self.rssi(),
    {
        self.rssi_db
    }
}

/// Mathematical model of [`SystemSignals`]: the pending settings to persist,
/// and whether a time sync and a restart are requested.
pub struct SignalsModel {
    pub persist: Option<SettingsSnapshotModel>,
    pub sync_requested: bool,
    pub restart_requested: bool,
}

/// Cross-task signals for persistence, time sync, and restarts.
#[derive(Debug)]
pub struct SystemSignals {
    persist: Option<SettingsSnapshot>,
    sync_requested: bool,
    restart_requested: bool,
}

/// The view of an optional settings snapshot.
pub open spec fn opt_settings_view(s: Option<SettingsSnapshot>) -> Option<SettingsSnapshotModel> {
    match s {
        Some(v) => Some(v@),
        None => None,
    }
}

impl View for SystemSignals {
    type V = SignalsModel;

    closed spec fn view(&self) -> SignalsModel {
        SignalsModel {
            persist: opt_settings_view(self.persist),
            sync_requested: self.sync_requested,
            restart_requested: self.restart_requested,
        }
    }
}

/// The signals after a persistence request: the new snapshot replaces any
/// pending one.
pub open spec fn with_persist_request(m: SignalsModel, s: SettingsSnapshotModel) -> SignalsModel {
    SignalsModel { persist: Some(s), ..m }
}

/// The signals after the pending snapshot was taken.
pub open spec fn after_take_persist(m: SignalsModel) -> SignalsModel {
    SignalsModel { persist: None, ..m }
}

impl SystemSignals {
    /// Create a new, idle signal set.
    pub fn new() -> (s: Self)
        ensures
            s@.persist is None,
            !s@.sync_requested,
            !s@.restart_requested,
    {
        SystemSignals { persist: None, sync_requested: false, restart_requested: false }
    }

    /// Stash a settings snapshot for persistence.
    pub fn request_persist(&mut self, snapshot: SettingsSnapshot)
        ensures
            final(self)@ == with_persist_request(old(self)@, snapshot@),
    {
        self.persist = Some(snapshot);
    }

    /// Take the pending snapshot, if any.
    pub fn take_persist(&mut self) -> (r: Option<SettingsSnapshot>)
        ensures
            opt_settings_view(r) == old(self)@.persist,
            final(self)@ == after_take_persist(old(self)@),
    {
        self.persist.take()
    }

    /// Mark an NTP sync request.
    pub fn request_sync(&mut self)
        ensures
            final(self)@ == (SignalsModel { sync_requested: true, ..old(self)@ }),
    {
        self.sync_requested = true;
    }

    /// Check and clear the sync request flag.
    pub fn take_sync(&mut self) -> (r: bool)
        ensures
            r == old(self)@.sync_requested,
            final(self)@ == (SignalsModel { sync_requested: false, ..old(self)@ }),
    {
        let r = self.sync_requested;
        self.sync_requested = false;
        r
    }

    /// Mark a restart request.
    pub fn request_restart(&mut self)
        ensures
            final(self)@ == (SignalsModel { restart_requested: true, ..old(self)@ }),
    {
        self.restart_requested = true;
    }

    /// Check and clear the restart request flag.
    pub fn take_restart(&mut self) -> (r: bool)
        ensures
            r == old(self)@.restart_requested,
            final(self)@ == (SignalsModel { restart_requested: false, ..old(self)@ }),
    {
        let r = self.restart_requested;
        self.restart_requested = false;
        r
    }
}

/// A requested snapshot is taken exactly once: taking it right after the
/// request hands back that snapshot, and taking again hands back nothing.
pub proof fn lemma_persist_taken_once(m: SignalsModel, s: SettingsSnapshotModel)
    ensures
        with_persist_request(m, s).persist == Some(s),
        after_take_persist(with_persist_request(m, s)).persist is None,
        after_take_persist(with_persist_request(m, s)).sync_requested == m.sync_requested,
        after_take_persist(with_persist_request(m, s)).restart_requested == m.restart_requested,
{
}

} // verus!
