//! Wi-Fi provisioning and connection management.
//!
//! The manager follows the usual provisioning flow: try saved credentials first,
//! fall back to a SoftAP provisioning network, and let credentials be
//! replaced or forgotten through commands. [`WifiManager::handle`] is the
//! manager's decision step: the runtime performs each [`WifiAction`] (store
//! and radio work) and hands the outcome back as the next [`WifiEvent`].

use vstd::prelude::*;

verus! {

/// Wi-Fi credentials provided by the user.
#[derive(Debug)]
pub struct WifiCredentials {
    /// Network SSID.
    pub ssid: String,
    /// Network password.
    pub password: String,
}

/// Mathematical model of a set of credentials.
pub struct CredentialsModel {
    pub ssid: Seq<char>,
    pub password: Seq<char>,
}

impl View for WifiCredentials {
    type V = CredentialsModel;

    open spec fn view(&self) -> CredentialsModel {
        CredentialsModel { ssid: self.ssid@, password: self.password@ }
    }
}

impl Clone for WifiCredentials {
    fn clone(&self) -> (r: Self)
        ensures
            r@ == self@,
    {
        WifiCredentials { ssid: self.ssid.clone(), password: self.password.clone() }
    }
}

impl WifiCredentials {
    /// Create a new credentials payload.
    pub fn new(ssid: String, password: String) -> (c: Self)
        ensures
            c@ == (CredentialsModel { ssid: ssid@, password: password@ }),
    {
        WifiCredentials { ssid, password }
    }
}

/// The view of optional credentials.
pub open spec fn opt_credentials_view(c: Option<WifiCredentials>) -> Option<CredentialsModel> {
    match c {
        Some(v) => Some(v@),
        None => None,
    }
}

/// Commands that can be sent to the Wi-Fi manager.
#[derive(Debug)]
pub enum WifiCommand {
    /// Store new credentials and attempt to connect.
    SetCredentials(WifiCredentials),
    /// Forget saved credentials and re-enter provisioning mode.
    ForgetCredentials,
    /// Force a reconnect using the last saved credentials.
    ForceReconnect,
}

/// Mathematical model of a [`WifiCommand`].
pub enum CommandModel {
    SetCredentials(CredentialsModel),
    ForgetCredentials,
    ForceReconnect,
}

impl View for WifiCommand {
    type V = CommandModel;

    open spec fn view(&self) -> CommandModel {
        match self {
            WifiCommand::SetCredentials(c) => CommandModel::SetCredentials(c@),
            WifiCommand::ForgetCredentials => CommandModel::ForgetCredentials,
            WifiCommand::ForceReconnect => CommandModel::ForceReconnect,
        }
    }
}

/// Errors reported by Wi-Fi control implementations.
#[derive(Debug, Clone, Copy, PartialEq, Eq, Structural)]
pub enum WifiError {
    /// Connection or configuration failed.
    ConnectionFailed,
    /// SoftAP provisioning failed.
    ProvisioningFailed,
}

/// Storage backend for Wi-Fi credentials.
pub trait CredentialStore {
    /// Load credentials, if any are stored.
    fn load(&mut self) -> Option<WifiCredentials>;

    /// Save credentials to storage.
    fn save(&mut self, credentials: &WifiCredentials);

    /// Clear any saved credentials.
    fn clear(&mut self);
}

/// Wi-Fi radio control: station connections and the provisioning access
/// point.
pub trait WifiControl {
    /// Attempt to connect using the provided credentials.
    fn connect(&mut self, credentials: &WifiCredentials) -> Result<(), WifiError>;

    /// Start a SoftAP for provisioning.
    fn start_ap(&mut self, credentials: &WifiCredentials) -> Result<(), WifiError>;

    /// Disconnect from the current network.
    fn disconnect(&mut self) -> Result<(), WifiError>;

    /// Return true if the station is connected.
    fn is_connected(&self) -> bool;

    /// Return the current RSSI in dB.
    fn rssi_db(&self) -> i32;
}

/// In-memory credential store for tests and host simulations.
#[derive(Debug)]
pub struct InMemoryCredentialStore {
    credentials: Option<WifiCredentials>,
}

impl InMemoryCredentialStore {
    /// The stored credentials.
    pub closed spec fn stored(&self) -> Option<CredentialsModel> {
        opt_credentials_view(self.credentials)
    }

    /// Create an empty credential store.
    pub fn new() -> (s: Self)
        ensures
            s.stored() is None,
    {
        InMemoryCredentialStore { credentials: None }
    }
}

impl Default for InMemoryCredentialStore {
    fn default() -> (s: Self)
        ensures
            s.stored() is None,
    {
        InMemoryCredentialStore { credentials: None }
    }
}

impl CredentialStore for InMemoryCredentialStore {
    fn load(&mut self) -> (r: Option<WifiCredentials>)
        ensures
            opt_credentials_view(r) == old(self).stored(),
            final(self).stored() == old(self).stored(),
    {
        match &self.credentials {
            Some(c) => Some(c.clone()),
            None => None,
        }
    }

    fn save(&mut self, credentials: &WifiCredentials)
        ensures
            final(self).stored() == Some(credentials@),
    {
        self.credentials = Some(credentials.clone());
    }

    fn clear(&mut self)
        ensures
            final(self).stored() is None,
    {
        self.credentials = None;
    }
}

/// SoftAP credentials used during provisioning.
#[derive(Debug)]
pub struct ProvisioningConfig {
    /// SSID of the provisioning network.
    pub ssid: String,
    /// Password for the provisioning network.
    pub password: String,
}

impl View for ProvisioningConfig {
    type V = CredentialsModel;

    open spec fn view(&self) -> CredentialsModel {
        CredentialsModel { ssid: self.ssid@, password: self.password@ }
    }
}

impl Clone for ProvisioningConfig {
    fn clone(&self) -> (r: Self)
        ensures
            r@ == self@,
    {
        ProvisioningConfig { ssid: self.ssid.clone(), password: self.password.clone() }
    }
}

impl ProvisioningConfig {
    /// Create a new provisioning configuration.
    pub fn new(ssid: String, password: String) -> (c: Self)
        ensures
            c@ == (CredentialsModel { ssid: ssid@, password: password@ }),
    {
        ProvisioningConfig { ssid, password }
    }
}

/// What the manager waits for.
#[derive(Debug)]
pub enum WifiStep {
    /// Nothing pending: waiting for a command or the reconnect timer.
    Idle,
    /// Loading the saved credentials, to connect with them.
    LoadingSaved,
    /// Connecting with the saved credentials.
    ConnectingSaved,
    /// Starting the provisioning access point.
    StartingAp,
    /// Disconnecting, to connect with new credentials afterwards.
    DisconnectingForNew(WifiCredentials),
    /// Connecting with new credentials.
    ConnectingNew,
    /// Disconnecting, to enter provisioning afterwards.
    DisconnectingForForget,
    /// Disconnecting, to reconnect with the saved credentials afterwards.
    DisconnectingForReconnect,
}

/// Mathematical model of a [`WifiStep`].
pub enum StepModel {
    Idle,
    LoadingSaved,
    ConnectingSaved,
    StartingAp,
    DisconnectingForNew(CredentialsModel),
    ConnectingNew,
    DisconnectingForForget,
    DisconnectingForReconnect,
}

impl View for WifiStep {
    type V = StepModel;

    open spec fn view(&self) -> StepModel {
        match self {
            WifiStep::Idle => StepModel::Idle,
            WifiStep::LoadingSaved => StepModel::LoadingSaved,
            WifiStep::ConnectingSaved => StepModel::ConnectingSaved,
            WifiStep::StartingAp => StepModel::StartingAp,
            WifiStep::DisconnectingForNew(c) => StepModel::DisconnectingForNew(c@),
            WifiStep::ConnectingNew => StepModel::ConnectingNew,
            WifiStep::DisconnectingForForget => StepModel::DisconnectingForForget,
            WifiStep::DisconnectingForReconnect => StepModel::DisconnectingForReconnect,
        }
    }
}

/// What the runtime reports to the manager.
#[derive(Debug)]
pub enum WifiEvent {
    /// The manager task starts.
    Started,
    /// A command arrived.
    Command(WifiCommand),
    /// The reconnect interval elapsed; `connected` is the station's state.
    ReconnectDue { connected: bool },
    /// The saved credentials were loaded.
    Loaded(Option<WifiCredentials>),
    /// The pending radio operation finished with this outcome.
    Finished(Result<(), WifiError>),
}

/// Mathematical model of a [`WifiEvent`].
pub enum EventModel {
    Started,
    Command(CommandModel),
    ReconnectDue { connected: bool },
    Loaded(Option<CredentialsModel>),
    Finished(Result<(), WifiError>),
}

impl View for WifiEvent {
    type V = EventModel;

    open spec fn view(&self) -> EventModel {
        match self {
            WifiEvent::Started => EventModel::Started,
            WifiEvent::Command(c) => EventModel::Command(c@),
            WifiEvent::ReconnectDue { connected } => EventModel::ReconnectDue { connected: *connected },
            WifiEvent::Loaded(c) => EventModel::Loaded(opt_credentials_view(*c)),
            WifiEvent::Finished(r) => EventModel::Finished(*r),
        }
    }
}

/// The work the runtime performs next.
#[derive(Debug)]
pub enum WifiAction {
    /// Refresh the shared Wi-Fi status, then wait for a command or the
    /// reconnect timer.
    Wait,
    /// Load the saved credentials (report [`WifiEvent::Loaded`]).
    LoadSaved,
    /// Connect the station with these credentials (report `Finished`).
    Connect(WifiCredentials),
    /// Start the provisioning access point (report `Finished`).
    StartAp(WifiCredentials),
    /// Save these credentials, then disconnect (report `Finished`).
    SaveAndDisconnect(WifiCredentials),
    /// Clear the saved credentials, then disconnect (report `Finished`).
    ClearAndDisconnect,
    /// Disconnect (report `Finished`).
    Disconnect,
    /// Tell the controller that provisioning succeeded, then wait.
    NotifyProvisioningSuccess,
}

/// Mathematical model of a [`WifiAction`].
pub enum ActionModel {
    Wait,
    LoadSaved,
    Connect(CredentialsModel),
    StartAp(CredentialsModel),
    SaveAndDisconnect(CredentialsModel),
    ClearAndDisconnect,
    Disconnect,
    NotifyProvisioningSuccess,
}

impl View for WifiAction {
    type V = ActionModel;

    open spec fn view(&self) -> ActionModel {
        match self {
            WifiAction::Wait => ActionModel::Wait,
            WifiAction::LoadSaved => ActionModel::LoadSaved,
            WifiAction::Connect(c) => ActionModel::Connect(c@),
            WifiAction::StartAp(c) => ActionModel::StartAp(c@),
            WifiAction::SaveAndDisconnect(c) => ActionModel::SaveAndDisconnect(c@),
            WifiAction::ClearAndDisconnect => ActionModel::ClearAndDisconnect,
            WifiAction::Disconnect => ActionModel::Disconnect,
            WifiAction::NotifyProvisioningSuccess => ActionModel::NotifyProvisioningSuccess,
        }
    }
}

/// Manages Wi-Fi connectivity and provisioning behavior.
#[derive(Debug)]
pub struct WifiManager {
    provisioning: ProvisioningConfig,
    reconnect_interval_secs: u64,
    /// Whether the radio was switched into SoftAP provisioning mode; the
    /// station then reads as disconnected, and the reconnect timer must not
    /// restart the access point over and over.
    in_provisioning: bool,
    step: WifiStep,
}

/// Mathematical model of a [`WifiManager`].
pub struct ManagerModel {
    pub provisioning: CredentialsModel,
    pub reconnect_interval_secs: u64,
    pub in_provisioning: bool,
    pub step: StepModel,
}

impl View for WifiManager {
    type V = ManagerModel;

    closed spec fn view(&self) -> ManagerModel {
        ManagerModel {
            provisioning: self.provisioning@,
            reconnect_interval_secs: self.reconnect_interval_secs,
            in_provisioning: self.in_provisioning,
            step: self.step@,
        }
    }
}

/// The manager waiting for `step`, with the provisioning flag `p`.
pub open spec fn manager_at(m: ManagerModel, p: bool, step: StepModel) -> ManagerModel {
    ManagerModel { in_provisioning: p, step, ..m }
}

/// Start the provisioning access point with the configured credentials.
pub open spec fn enter_provisioning(m: ManagerModel) -> (ManagerModel, ActionModel) {
    (manager_at(m, m.in_provisioning, StepModel::StartingAp), ActionModel::StartAp(m.provisioning))
}

/// Connect with the saved credentials: first load them.
pub open spec fn connect_with_saved(m: ManagerModel) -> (ManagerModel, ActionModel) {
    (manager_at(m, m.in_provisioning, StepModel::LoadingSaved), ActionModel::LoadSaved)
}

/// Nothing more to do: wait.
pub open spec fn rest(m: ManagerModel, p: bool) -> (ManagerModel, ActionModel) {
    (manager_at(m, p, StepModel::Idle), ActionModel::Wait)
}

/// A command handled while idle.
pub open spec fn command_result(m: ManagerModel, c: CommandModel) -> (ManagerModel, ActionModel) {
    match c {
        CommandModel::SetCredentials(creds) => (
            manager_at(m, m.in_provisioning, StepModel::DisconnectingForNew(creds)),
            ActionModel::SaveAndDisconnect(creds),
        ),
        CommandModel::ForgetCredentials => (
            manager_at(m, m.in_provisioning, StepModel::DisconnectingForForget),
            ActionModel::ClearAndDisconnect,
        ),
        CommandModel::ForceReconnect => (
            manager_at(m, m.in_provisioning, StepModel::DisconnectingForReconnect),
            ActionModel::Disconnect,
        ),
    }
}

/// One decision of the manager: its next state and the work to perform.
///
/// - On start, and when the reconnect timer finds the station disconnected
///   outside provisioning mode, it connects with the saved credentials.
/// - Connecting with saved credentials falls back to provisioning when none
///   are saved or the connection fails; success leaves provisioning mode.
/// - New credentials are saved, the radio disconnects, and the manager
///   connects with them: success notifies the controller, failure returns
///   to provisioning.
/// - Forgetting clears the store, disconnects and enters provisioning.
/// - A forced reconnect disconnects and connects with the saved credentials.
/// - A started access point enters provisioning mode; a failed one is left.
/// - An outcome that answers nothing pending is dropped.
pub open spec fn wifi_step_result(m: ManagerModel, e: EventModel) -> (ManagerModel, ActionModel) {
    match e {
        EventModel::Started => connect_with_saved(m),
        EventModel::Command(c) => command_result(m, c),
        EventModel::ReconnectDue { connected } => {
            if !connected && !m.in_provisioning {
                connect_with_saved(m)
            } else {
                rest(m, m.in_provisioning)
            }
        },
        EventModel::Loaded(saved) => match m.step {
            StepModel::LoadingSaved => match saved {
                Some(creds) => (
                    manager_at(m, m.in_provisioning, StepModel::ConnectingSaved),
                    ActionModel::Connect(creds),
                ),
                None => enter_provisioning(m),
            },
            _ => rest(m, m.in_provisioning),
        },
        EventModel::Finished(outcome) => match m.step {
            StepModel::ConnectingSaved => {
                if outcome is Ok {
                    rest(m, false)
                } else {
                    enter_provisioning(m)
                }
            },
            StepModel::StartingAp => {
                if outcome is Ok {
                    rest(m, true)
                } else {
                    rest(m, m.in_provisioning)
                }
            },
            StepModel::DisconnectingForNew(creds) => (
                manager_at(m, m.in_provisioning, StepModel::ConnectingNew),
                ActionModel::Connect(creds),
            ),
            StepModel::ConnectingNew => {
                if outcome is Ok {
                    (manager_at(m, m.in_provisioning, StepModel::Idle), ActionModel::NotifyProvisioningSuccess)
                } else {
                    enter_provisioning(m)
                }
            },
            StepModel::DisconnectingForForget => enter_provisioning(m),
            StepModel::DisconnectingForReconnect => connect_with_saved(m),
            _ => rest(m, m.in_provisioning),
        },
    }
}

impl WifiManager {
    /// Create a manager that has not started yet.
    pub fn new(provisioning: ProvisioningConfig, reconnect_interval_secs: u64) -> (w: Self)
        ensures
            w@ == (ManagerModel {
                provisioning: provisioning@,
                reconnect_interval_secs,
                in_provisioning: false,
                step: StepModel::Idle,
            }),
    {
        WifiManager { provisioning, reconnect_interval_secs, in_provisioning: false, step: WifiStep::Idle }
    }

    /// The interval between reconnect attempts, in seconds.
    pub fn reconnect_interval_secs(&self) -> (s: u64)
        ensures
            s == self@.reconnect_interval_secs,
    {
        self.reconnect_interval_secs
    }

    /// Whether the radio is in SoftAP provisioning mode.
    pub fn in_provisioning(&self) -> (p: bool)
        ensures
            p == self@.in_provisioning,
    {
        self.in_provisioning
    }

    fn provisioning_credentials(&self) -> (c: WifiCredentials)
        ensures
            c@ == self@.provisioning,
    {
        WifiCredentials::new(self.provisioning.ssid.clone(), self.provisioning.password.clone())
    }

    fn start_provisioning(&mut self) -> (a: WifiAction)
        ensures
            (final(self)@, a@) == enter_provisioning(old(self)@),
    {
        self.step = WifiStep::StartingAp;
        WifiAction::StartAp(self.provisioning_credentials())
    }

    fn load_saved(&mut self) -> (a: WifiAction)
        ensures
            (final(self)@, a@) == connect_with_saved(old(self)@),
    {
        self.step = WifiStep::LoadingSaved;
        WifiAction::LoadSaved
    }

    fn wait(&mut self, in_provisioning: bool) -> (a: WifiAction)
        ensures
            (final(self)@, a@) == rest(old(self)@, in_provisioning),
    {
        self.in_provisioning = in_provisioning;
        self.step = WifiStep::Idle;
        WifiAction::Wait
    }

    /// Decide what to do about an event; see [`wifi_step_result`].
    pub fn handle(&mut self, event: WifiEvent) -> (a: WifiAction)
        ensures
            (final(self)@, a@) == wifi_step_result(old(self)@, event@),
    {
        let p = self.in_provisioning;
        match event {
            WifiEvent::Started => self.load_saved(),
            WifiEvent::Command(c) => match c {
                WifiCommand::SetCredentials(creds) => {
                    let saved = creds.clone();
                    self.step = WifiStep::DisconnectingForNew(creds);
                    WifiAction::SaveAndDisconnect(saved)
                },
                WifiCommand::ForgetCredentials => {
                    self.step = WifiStep::DisconnectingForForget;
                    WifiAction::ClearAndDisconnect
                },
                WifiCommand::ForceReconnect => {
                    self.step = WifiStep::DisconnectingForReconnect;
                    WifiAction::Disconnect
                },
            },
            WifiEvent::ReconnectDue { connected } => {
                if !connected && !p {
                    self.load_saved()
                } else {
                    self.wait(p)
                }
            },
            WifiEvent::Loaded(saved) => {
                if let WifiStep::LoadingSaved = self.step {
                    match saved {
                        Some(creds) => {
                            self.step = WifiStep::ConnectingSaved;
                            WifiAction::Connect(creds)
                        },
                        None => self.start_provisioning(),
                    }
                } else {
                    self.wait(p)
                }
            },
            WifiEvent::Finished(outcome) => {
                let ok = outcome.is_ok();
                let mut step = WifiStep::Idle;
                std::mem::swap(&mut step, &mut self.step);
                match step {
                    WifiStep::ConnectingSaved => {
                        if ok {
                            self.wait(false)
                        } else {
                            self.start_provisioning()
                        }
                    },
                    WifiStep::StartingAp => {
                        if ok {
                            self.wait(true)
                        } else {
                            self.wait(p)
                        }
                    },
                    WifiStep::DisconnectingForNew(creds) => {
                        self.step = WifiStep::ConnectingNew;
                        WifiAction::Connect(creds)
                    },
                    WifiStep::ConnectingNew => {
                        if ok {
                            WifiAction::NotifyProvisioningSuccess
                        } else {
                            self.start_provisioning()
                        }
                    },
                    WifiStep::DisconnectingForForget => self.start_provisioning(),
                    WifiStep::DisconnectingForReconnect => self.load_saved(),
                    _ => self.wait(p),
                }
            },
        }
    }
}

/// Saved credentials are tried first, and provisioning is the fallback:
/// when loading finds none, or connecting with them fails, the manager
/// starts the provisioning access point with the configured credentials.
pub proof fn lemma_falls_back_to_provisioning(m: ManagerModel, outcome: Result<(), WifiError>)
    ensures
        m.step is LoadingSaved ==> wifi_step_result(m, EventModel::Loaded(None)).1
            == ActionModel::StartAp(m.provisioning),
        m.step is ConnectingSaved && outcome is Err ==> wifi_step_result(m, EventModel::Finished(outcome)).1
            == ActionModel::StartAp(m.provisioning),
        m.step is ConnectingNew && outcome is Err ==> wifi_step_result(m, EventModel::Finished(outcome)).1
            == ActionModel::StartAp(m.provisioning),
{
}

/// While in provisioning mode the reconnect timer changes nothing: the
/// manager keeps waiting and stays in provisioning mode.
pub proof fn lemma_provisioning_is_not_interrupted_by_timer(m: ManagerModel, connected: bool)
    requires
        m.in_provisioning,
    ensures
        wifi_step_result(m, EventModel::ReconnectDue { connected }).1 == ActionModel::Wait,
        wifi_step_result(m, EventModel::ReconnectDue { connected }).0.in_provisioning,
{
}

/// Forgetting the credentials clears the store, and once the radio has
/// disconnected the manager starts provisioning, whatever the disconnect
/// reported.
pub proof fn lemma_forget_enters_provisioning(m: ManagerModel, outcome: Result<(), WifiError>)
    ensures
        wifi_step_result(m, EventModel::Command(CommandModel::ForgetCredentials)).1 == ActionModel::ClearAndDisconnect,
        wifi_step_result(
            wifi_step_result(m, EventModel::Command(CommandModel::ForgetCredentials)).0,
            EventModel::Finished(outcome),
        ).1 == ActionModel::StartAp(m.provisioning),
{
}

/// New credentials are saved and then used: after the disconnect, the
/// manager connects with exactly the credentials it was given.
pub proof fn lemma_new_credentials_are_saved_and_used(
    m: ManagerModel,
    creds: CredentialsModel,
    outcome: Result<(), WifiError>,
)
    ensures
        wifi_step_result(m, EventModel::Command(CommandModel::SetCredentials(creds))).1
            == ActionModel::SaveAndDisconnect(creds),
        wifi_step_result(
            wifi_step_result(m, EventModel::Command(CommandModel::SetCredentials(creds))).0,
            EventModel::Finished(outcome),
        ).1 == ActionModel::Connect(creds),
{
}

} // verus!
