//! The in-memory model of everything outside the application: the USB
//! candidates, the device (identity, role, radios, scripted write outcomes),
//! the host network (sharing profile, checkpoints, the temporary bootstrap
//! profile), the client observations, the clock and saved-client storage.
//! Every change it makes is appended to its mutation history.

use vstd::prelude::*;
use crate::failures;
use crate::model::{
    texts, saved_views, copy_candidates, copy_observations, copy_optional_radio, AuthorizationState,
    ClientNetworkObservation, DeviceIdentity, DeviceRole, HostSharingObservation, OperationFailure,
    ProfileKind, PuppisCandidate, RadioBand, RadioConfiguration, RadioWriteEffect, RoleWriteEffect,
    SavedClient, SavedClientView,
};
use crate::text::{copy_texts, is_text, text};

verus! {

/// How saved client labels are stored.
#[derive(Debug, Clone, Copy, PartialEq, Eq, Structural)]
pub enum SavedClientStorage {
    /// Kept in memory only: writes always succeed, and there is no file to reset.
    Memory,
    /// A private file that accepts writes.
    Durable,
    /// A file location that rejects every write.
    Unwritable,
}

/// A change that an operation makes outside the application, in the order
/// it is made: to the interrupted-transaction marker, the device or the
/// host network of the addressed interface.
#[derive(Clone, PartialEq, Eq)]
pub enum SystemAction {
    /// Sets (`true`) or clears the interrupted-transaction marker.
    SetMarker(bool),
    /// Writes the complete settings object of a radio; the last field is
    /// what the radio held before the write.
    WriteRadio(RadioBand, RadioConfiguration, Option<RadioConfiguration>),
    /// Writes the device role; the last field is the role held before.
    WriteRole(DeviceRole, Option<DeviceRole>),
    /// Opens a host network checkpoint.
    CreateCheckpoint,
    /// Commits the open checkpoint.
    CommitCheckpoint,
    /// Rolls the open checkpoint back.
    RollbackCheckpoint,
    /// Brings up the temporary addressing that reaches an unconfigured device.
    PrepareBootstrap,
    /// Removes the temporary addressing.
    RemoveBootstrap,
    /// Creates or updates and activates the application-owned profile.
    ReconcileManaged,
    /// Deactivates the owned profile.
    DisableManaged,
    /// Deactivates and deletes the owned profile.
    RemoveManaged,
}

impl SystemAction {
    /// A copy of the action.
    pub fn copied(&self) -> (r: SystemAction)
        ensures
            r == *self,
    {
        match self {
            SystemAction::SetMarker(b) => SystemAction::SetMarker(*b),
            SystemAction::WriteRadio(band, c, p) => SystemAction::WriteRadio(*band, c.copied(), copy_optional_radio(p)),
            SystemAction::WriteRole(role, p) => SystemAction::WriteRole(*role, *p),
            SystemAction::CreateCheckpoint => SystemAction::CreateCheckpoint,
            SystemAction::CommitCheckpoint => SystemAction::CommitCheckpoint,
            SystemAction::RollbackCheckpoint => SystemAction::RollbackCheckpoint,
            SystemAction::PrepareBootstrap => SystemAction::PrepareBootstrap,
            SystemAction::RemoveBootstrap => SystemAction::RemoveBootstrap,
            SystemAction::ReconcileManaged => SystemAction::ReconcileManaged,
            SystemAction::DisableManaged => SystemAction::DisableManaged,
            SystemAction::RemoveManaged => SystemAction::RemoveManaged,
        }
    }
}

/// The in-memory device, host and storage that the application drives.
#[derive(Clone)]
pub struct InMemoryEnvironment {
    pub candidates: Vec<PuppisCandidate>,
    pub identity: Option<DeviceIdentity>,
    pub host_sharing: Option<HostSharingObservation>,
    pub mutations: Vec<String>,
    pub five_ghz: Option<RadioConfiguration>,
    pub two_point_four_ghz: Option<RadioConfiguration>,
    pub radio_write_effects: Vec<RadioWriteEffect>,
    pub interrupted: bool,
    pub role: Option<DeviceRole>,
    pub role_write_effects: Vec<RoleWriteEffect>,
    pub connected_clients: Vec<String>,
    pub recent_clients: Vec<ClientNetworkObservation>,
    pub telemetry_read_count: usize,
    pub configuration_read_count: usize,
    pub identity_failures_remaining: usize,
    pub bootstrap_active: bool,
    pub current_time: u64,
    pub saved_clients: Vec<SavedClient>,
    pub saved_clients_storage: SavedClientStorage,
    pub saved_clients_failure: Option<OperationFailure>,
    pub actions: Vec<SystemAction>,
}

/// The environment with its lists as sequences.
pub struct EnvironmentView {
    pub candidates: Seq<PuppisCandidate>,
    pub identity: Option<DeviceIdentity>,
    pub host_sharing: Option<HostSharingObservation>,
    pub mutations: Seq<Seq<char>>,
    pub five_ghz: Option<RadioConfiguration>,
    pub two_point_four_ghz: Option<RadioConfiguration>,
    pub radio_write_effects: Seq<RadioWriteEffect>,
    pub interrupted: bool,
    pub role: Option<DeviceRole>,
    pub role_write_effects: Seq<RoleWriteEffect>,
    pub connected_clients: Seq<String>,
    pub recent_clients: Seq<ClientNetworkObservation>,
    pub telemetry_read_count: usize,
    pub configuration_read_count: usize,
    pub identity_failures_remaining: usize,
    pub bootstrap_active: bool,
    pub current_time: u64,
    pub saved_clients: Seq<SavedClientView>,
    pub saved_clients_storage: SavedClientStorage,
    pub saved_clients_failure: Option<OperationFailure>,
    pub actions: Seq<SystemAction>,
}

impl View for InMemoryEnvironment {
    type V = EnvironmentView;

    open spec fn view(&self) -> EnvironmentView {
        EnvironmentView {
            candidates: self.candidates@,
            identity: self.identity,
            host_sharing: self.host_sharing,
            mutations: texts(self.mutations@),
            five_ghz: self.five_ghz,
            two_point_four_ghz: self.two_point_four_ghz,
            radio_write_effects: self.radio_write_effects@,
            interrupted: self.interrupted,
            role: self.role,
            role_write_effects: self.role_write_effects@,
            connected_clients: self.connected_clients@,
            recent_clients: self.recent_clients@,
            telemetry_read_count: self.telemetry_read_count,
            configuration_read_count: self.configuration_read_count,
            identity_failures_remaining: self.identity_failures_remaining,
            bootstrap_active: self.bootstrap_active,
            current_time: self.current_time,
            saved_clients: saved_views(self.saved_clients@),
            saved_clients_storage: self.saved_clients_storage,
            saved_clients_failure: self.saved_clients_failure,
            actions: self.actions@,
        }
    }
}

/// The device role that a role code names.
pub open spec fn role_for_code(code: Seq<char>) -> Option<DeviceRole> {
    if code == "1"@ {
        Some(DeviceRole::PrismPulse)
    } else if code == "2"@ {
        Some(DeviceRole::WifiHotspot)
    } else if code == "3"@ {
        Some(DeviceRole::WifiAdapter)
    } else {
        None
    }
}

/// The role code of a device role.
pub open spec fn code_for_role(role: DeviceRole) -> Seq<char> {
    match role {
        DeviceRole::PrismPulse => "1"@,
        DeviceRole::WifiHotspot => "2"@,
        DeviceRole::WifiAdapter => "3"@,
    }
}

impl DeviceRole {
    /// The role that a protocol role code names, if any.
    pub fn from_code(code: &String) -> (r: Option<DeviceRole>)
        ensures
            r == role_for_code(code@),
    {
        if is_text(code, "1") {
            Some(DeviceRole::PrismPulse)
        } else if is_text(code, "2") {
            Some(DeviceRole::WifiHotspot)
        } else if is_text(code, "3") {
            Some(DeviceRole::WifiAdapter)
        } else {
            None
        }
    }

    /// The protocol role code of this role.
    pub fn code(self) -> (r: String)
        ensures
            r@ == code_for_role(self),
    {
        match self {
            DeviceRole::PrismPulse => text("1"),
            DeviceRole::WifiHotspot => text("2"),
            DeviceRole::WifiAdapter => text("3"),
        }
    }
}

/// The text of a radio band in the mutation history.
pub open spec fn band_name(band: RadioBand) -> Seq<char> {
    match band {
        RadioBand::FiveGhz => "FiveGhz"@,
        RadioBand::TwoPointFourGhz => "TwoPointFourGhz"@,
    }
}

/// The settings stored for a band.
pub open spec fn radio_of(e: EnvironmentView, band: RadioBand) -> Option<RadioConfiguration> {
    match band {
        RadioBand::FiveGhz => e.five_ghz,
        RadioBand::TwoPointFourGhz => e.two_point_four_ghz,
    }
}

/// The environment with new settings stored for a band.
pub open spec fn with_radio_of(e: EnvironmentView, band: RadioBand, c: RadioConfiguration) -> EnvironmentView {
    match band {
        RadioBand::FiveGhz => EnvironmentView { five_ghz: Some(c), ..e },
        RadioBand::TwoPointFourGhz => EnvironmentView { two_point_four_ghz: Some(c), ..e },
    }
}

/// The environment in which a radio holds nothing that can be read.
pub open spec fn without_radio_of(e: EnvironmentView, band: RadioBand) -> EnvironmentView {
    match band {
        RadioBand::FiveGhz => EnvironmentView { five_ghz: None, ..e },
        RadioBand::TwoPointFourGhz => EnvironmentView { two_point_four_ghz: None, ..e },
    }
}

/// One more, unless the count is already at its maximum.
pub open spec fn counted(n: usize) -> usize {
    if n < usize::MAX { (n + 1) as usize } else { n }
}

/// An environment without candidates, device, host state or observations,
/// with saved clients kept in memory.
pub open spec fn is_empty_environment(e: EnvironmentView) -> bool {
    &&& e.candidates.len() == 0
    &&& e.identity is None
    &&& e.host_sharing is None
    &&& e.mutations.len() == 0
    &&& e.five_ghz is None
    &&& e.two_point_four_ghz is None
    &&& e.radio_write_effects.len() == 0
    &&& !e.interrupted
    &&& e.role is None
    &&& e.role_write_effects.len() == 0
    &&& e.connected_clients.len() == 0
    &&& e.recent_clients.len() == 0
    &&& e.telemetry_read_count == 0
    &&& e.configuration_read_count == 0
    &&& e.identity_failures_remaining == 0
    &&& !e.bootstrap_active
    &&& e.current_time == 0
    &&& e.saved_clients.len() == 0
    &&& e.saved_clients_storage == SavedClientStorage::Memory
    &&& e.saved_clients_failure is None
    &&& e.actions.len() == 0
}

/// Reads the system clock: seconds since the Unix epoch, zero when the clock
/// is before the epoch (`SystemTime::now` and `duration_since`). Nothing is
/// promised of the value: it is the time of the call.
#[verifier::external_body]
fn system_clock_seconds() -> (r: u64) {
    std::time::SystemTime::now().duration_since(std::time::UNIX_EPOCH).unwrap_or_default().as_secs()
}

impl InMemoryEnvironment {
    /// An environment that lists the given candidates and nothing else.
    pub fn with_candidates(candidates: Vec<PuppisCandidate>) -> (r: InMemoryEnvironment)
        ensures
            r@ == (EnvironmentView { candidates: candidates@, ..r@ }),
            is_empty_environment(EnvironmentView { candidates: Seq::empty(), ..r@ }),
    {
        InMemoryEnvironment {
            candidates,
            identity: None,
            host_sharing: None,
            mutations: Vec::new(),
            five_ghz: None,
            two_point_four_ghz: None,
            radio_write_effects: Vec::new(),
            interrupted: false,
            role: None,
            role_write_effects: Vec::new(),
            connected_clients: Vec::new(),
            recent_clients: Vec::new(),
            telemetry_read_count: 0,
            configuration_read_count: 0,
            identity_failures_remaining: 0,
            bootstrap_active: false,
            current_time: 0,
            saved_clients: Vec::new(),
            saved_clients_storage: SavedClientStorage::Memory,
            saved_clients_failure: None,
            actions: Vec::new(),
        }
    }

    /// The device answers with this identity, and its role is the one its code names.
    pub fn with_identity(self, identity: DeviceIdentity) -> (r: InMemoryEnvironment)
        ensures
            r@ == (EnvironmentView { identity: Some(identity), role: role_for_code(identity.role_code@), ..self@ }),
    {
        let mut r = self;
        r.role = DeviceRole::from_code(&identity.role_code);
        r.identity = Some(identity);
        r
    }

    /// The next `failures` identity reads fail as unreachable.
    pub fn with_identity_failures(self, failures: usize) -> (r: InMemoryEnvironment)
        ensures
            r@ == (EnvironmentView { identity_failures_remaining: failures, ..self@ }),
    {
        let mut r = self;
        r.identity_failures_remaining = failures;
        r
    }

    /// The outcomes of the next role writes, in order.
    pub fn with_role_write_effects(self, effects: Vec<RoleWriteEffect>) -> (r: InMemoryEnvironment)
        ensures
            r@ == (EnvironmentView { role_write_effects: effects@, ..self@ }),
    {
        let mut r = self;
        r.role_write_effects = effects;
        r
    }

    /// The device role; the environment must have one.
    pub fn role(&self) -> (r: DeviceRole)
        requires
            self.role is Some,
        ensures
            r == self.role->0,
    {
        self.role.unwrap()
    }

    /// Clients that the device reports as connected, and hardware addresses
    /// that the host recently saw without an address.
    pub fn with_client_observations(self, connected: Vec<String>, recent: Vec<String>) -> (r: InMemoryEnvironment)
        ensures
            r@ == (EnvironmentView {
                connected_clients: connected@,
                recent_clients: recent@.map_values(|h: String| ClientNetworkObservation { hardware_address: h, address: None }),
                ..self@
            }),
    {
        let mut observations: Vec<ClientNetworkObservation> = Vec::new();
        for i in 0..recent.len()
            invariant
                observations@ == recent@.take(i as int).map_values(|h: String| ClientNetworkObservation { hardware_address: h, address: None }),
        {
            observations.push(ClientNetworkObservation { hardware_address: recent[i].clone(), address: None });
            assert(recent@.take(i + 1 as int) =~= recent@.take(i as int).push(recent@[i as int]));
            assert(observations@ =~= recent@.take(i + 1 as int).map_values(|h: String| ClientNetworkObservation { hardware_address: h, address: None }));
        }
        assert(recent@.take(recent.len() as int) =~= recent@);
        let mut r = self;
        r.connected_clients = connected;
        r.recent_clients = observations;
        r
    }

    /// The host's recent observations of clients.
    pub fn with_recent_client_observations(self, recent: Vec<ClientNetworkObservation>) -> (r: InMemoryEnvironment)
        ensures
            r@ == (EnvironmentView { recent_clients: recent@, ..self@ }),
    {
        let mut r = self;
        r.recent_clients = recent;
        r
    }

    /// A fixed clock; zero means the system clock.
    pub fn with_current_time(self, epoch_seconds: u64) -> (r: InMemoryEnvironment)
        ensures
            r@ == (EnvironmentView { current_time: epoch_seconds, ..self@ }),
    {
        let mut r = self;
        r.current_time = epoch_seconds;
        r
    }

    /// Saved clients loaded from storage, or the failure that loading reported.
    pub fn with_saved_clients(self, clients: Vec<SavedClient>, failure: Option<OperationFailure>) -> (r: InMemoryEnvironment)
        ensures
            r@ == (EnvironmentView { saved_clients: saved_views(clients@), saved_clients_failure: failure, ..self@ }),
    {
        let mut r = self;
        r.saved_clients = clients;
        r.saved_clients_failure = failure;
        r
    }

    /// How saved clients are stored.
    pub fn with_saved_clients_storage(self, storage: SavedClientStorage) -> (r: InMemoryEnvironment)
        ensures
            r@ == (EnvironmentView { saved_clients_storage: storage, ..self@ }),
    {
        let mut r = self;
        r.saved_clients_storage = storage;
        r
    }

    /// Whether an interrupted device transaction was recorded earlier.
    pub fn with_interrupted_marker(self, present: bool) -> (r: InMemoryEnvironment)
        ensures
            r@ == (EnvironmentView { interrupted: present, ..self@ }),
    {
        let mut r = self;
        r.interrupted = present;
        r
    }

    /// The model of this host at startup, from what was read there (the
    /// device and the host network are observed into it before each
    /// operation, and every change that an operation makes on it is listed
    /// in `actions`, for the caller to carry out on the host; see `driver`):
    /// `saved` is `None` where the host has no user state directory, and
    /// otherwise what loading the saved-client file gave; `marker_present`
    /// says whether an interrupted device transaction was recorded. Saved
    /// clients are then stored in that file, or only in memory without one.
    pub fn linux_system(saved: Option<Result<Vec<SavedClient>, OperationFailure>>, marker_present: bool) -> (r: InMemoryEnvironment)
        ensures
            is_empty_environment(EnvironmentView {
                interrupted: false,
                saved_clients: Seq::empty(),
                saved_clients_storage: SavedClientStorage::Memory,
                saved_clients_failure: None,
                ..r@
            }),
            r@.interrupted == marker_present,
            match saved {
                None => {
                    &&& r@.saved_clients.len() == 0
                    &&& r@.saved_clients_storage == SavedClientStorage::Memory
                    &&& r@.saved_clients_failure matches Some(f) && failures::failure_is(f, "saved_clients_storage_failed",
                        "Saved client recognition data is unavailable.",
                        "Set HOME or XDG_STATE_HOME to a writable user state directory.")
                },
                Some(Ok(clients)) => {
                    &&& r@.saved_clients == saved_views(clients@)
                    &&& r@.saved_clients_storage == SavedClientStorage::Durable
                    &&& r@.saved_clients_failure is None
                },
                Some(Err(f)) => {
                    &&& r@.saved_clients.len() == 0
                    &&& r@.saved_clients_storage == SavedClientStorage::Durable
                    &&& r@.saved_clients_failure == Some(f)
                },
            },
    {
        let base = InMemoryEnvironment::with_candidates(Vec::new()).with_interrupted_marker(marker_present);
        match saved {
            None => base.with_saved_clients(Vec::new(), Some(crate::client_state::location_failure())),
            Some(Ok(clients)) => base.with_saved_clients(clients, None).with_saved_clients_storage(SavedClientStorage::Durable),
            Some(Err(f)) => base.with_saved_clients(Vec::new(), Some(f)).with_saved_clients_storage(SavedClientStorage::Durable),
        }
    }

    /// The clock in seconds: the fixed time when one is set, otherwise the system clock.
    pub fn current_time(&self) -> (r: u64)
        ensures
            self.current_time > 0 ==> r == self.current_time,
    {
        if self.current_time > 0 {
            self.current_time
        } else {
            system_clock_seconds()
        }
    }

    /// Stores saved clients: refused while a storage failure is recorded,
    /// refused by an unwritable location, accepted otherwise.
    pub fn persist_saved_clients(&self, clients: &Vec<SavedClient>) -> (r: Result<(), OperationFailure>)
        ensures
            self.saved_clients_failure matches Some(f) ==> r == Err::<(), OperationFailure>(f),
            self.saved_clients_failure is None ==> (match self.saved_clients_storage {
                SavedClientStorage::Unwritable => r matches Err(f) && failures::is_storage_write(f),
                _ => r is Ok,
            }),
    {
        match &self.saved_clients_failure {
            Some(f) => return Err(f.copied()),
            None => {},
        }
        match self.saved_clients_storage {
            SavedClientStorage::Unwritable => Err(failures::storage_write_failure()),
            _ => Ok(()),
        }
    }

    /// The number of client telemetry reads so far.
    pub fn telemetry_reads(&self) -> (r: usize)
        ensures
            r == self.telemetry_read_count,
    {
        self.telemetry_read_count
    }

    /// The number of radio configuration reads so far.
    pub fn configuration_reads(&self) -> (r: usize)
        ensures
            r == self.configuration_read_count,
    {
        self.configuration_read_count
    }

    /// The host's sharing state.
    pub fn with_host_sharing(self, observation: HostSharingObservation) -> (r: InMemoryEnvironment)
        ensures
            r@ == (EnvironmentView { host_sharing: Some(observation), ..self@ }),
    {
        let mut r = self;
        r.host_sharing = Some(observation);
        r
    }

    /// The settings of one radio.
    pub fn with_radio(self, band: RadioBand, configuration: RadioConfiguration) -> (r: InMemoryEnvironment)
        ensures
            r@ == with_radio_of(self@, band, configuration),
    {
        let mut r = self;
        match band {
            RadioBand::FiveGhz => r.five_ghz = Some(configuration),
            RadioBand::TwoPointFourGhz => r.two_point_four_ghz = Some(configuration),
        }
        r
    }

    /// The outcomes of the next radio writes, in order.
    pub fn with_radio_write_effects(self, effects: Vec<RadioWriteEffect>) -> (r: InMemoryEnvironment)
        ensures
            r@ == (EnvironmentView { radio_write_effects: effects@, ..self@ }),
    {
        let mut r = self;
        r.radio_write_effects = effects;
        r
    }

    /// The settings of one radio; that radio must be configured.
    pub fn radio(&self, band: RadioBand) -> (r: RadioConfiguration)
        requires
            radio_of(self@, band) is Some,
        ensures
            r == radio_of(self@, band)->0,
    {
        match band {
            RadioBand::FiveGhz => self.five_ghz.as_ref().unwrap().copied(),
            RadioBand::TwoPointFourGhz => self.two_point_four_ghz.as_ref().unwrap().copied(),
        }
    }

    /// Whether the interrupted-transaction marker is present.
    pub fn interrupted_marker(&self) -> (r: bool)
        ensures
            r == self.interrupted,
    {
        self.interrupted
    }

    /// The history of changes made to the device and the host.
    pub fn recorded_mutations(&self) -> (r: Vec<String>)
        ensures
            r@ == self.mutations@,
    {
        copy_texts(&self.mutations)
    }

    /// The candidates that discovery lists from now on.
    pub fn replace_candidates(&mut self, candidates: Vec<PuppisCandidate>)
        ensures
            final(self)@ == (EnvironmentView { candidates: candidates@, ..old(self)@ }),
    {
        self.candidates = candidates;
    }

    /// The candidates that discovery lists.
    pub fn discover_candidates(&self) -> (r: Vec<PuppisCandidate>)
        ensures
            r@ == self.candidates@,
    {
        copy_candidates(&self.candidates)
    }

    /// Reads the device identity: fails as unreachable while scripted
    /// failures remain (consuming one), else answers the configured identity.
    pub fn read_identity(&mut self) -> (r: Result<DeviceIdentity, OperationFailure>)
        ensures
            old(self).identity_failures_remaining > 0 ==> {
                &&& r matches Err(f) && failures::is_identity_unreachable(f)
                &&& final(self)@ == (EnvironmentView { identity_failures_remaining: (old(self).identity_failures_remaining - 1) as usize, ..old(self)@ })
            },
            old(self).identity_failures_remaining == 0 ==> {
                &&& final(self)@ == old(self)@
                &&& (match old(self).identity {
                    Some(i) => r == Ok::<DeviceIdentity, OperationFailure>(i),
                    None => r matches Err(f) && failures::is_identity_unanswered(f),
                })
            },
    {
        if self.identity_failures_remaining > 0 {
            self.identity_failures_remaining = self.identity_failures_remaining - 1;
            return Err(failures::identity_unreachable_failure());
        }
        match &self.identity {
            Some(i) => Ok(i.copied()),
            None => Err(failures::identity_unanswered_failure()),
        }
    }

    /// Inspects host sharing for an interface.
    pub fn inspect_host_sharing(&self, interface_name: &String) -> (r: Result<HostSharingObservation, OperationFailure>)
        ensures
            match self.host_sharing {
                Some(h) => r == Ok::<HostSharingObservation, OperationFailure>(h),
                None => r matches Err(f) && failures::is_network_state_unavailable(f),
            },
    {
        match &self.host_sharing {
            Some(h) => Ok(h.copied()),
            None => Err(failures::network_state_unavailable_failure()),
        }
    }

    fn record(&mut self, entry: String, action: SystemAction)
        ensures
            final(self)@ == (EnvironmentView {
                mutations: old(self)@.mutations.push(entry@),
                actions: old(self)@.actions.push(action),
                ..old(self)@
            }),
    {
        self.mutations.push(entry);
        self.actions.push(action);
        assert(texts(self.mutations@) =~= texts(old(self).mutations@).push(entry@));
    }

    /// Creates a host network checkpoint that a later step commits or rolls back.
    pub fn checkpoint(&mut self, interface_name: &String) -> (r: Result<(), OperationFailure>)
        ensures
            r is Ok,
            final(self)@ == (EnvironmentView {
                mutations: old(self)@.mutations.push("checkpoint:create:"@ + interface_name@),
                actions: old(self)@.actions.push(SystemAction::CreateCheckpoint),
                ..old(self)@
            }),
    {
        self.record(text("checkpoint:create:").concat(interface_name.as_str()), SystemAction::CreateCheckpoint);
        Ok(())
    }

    /// Commits or rolls back the checkpoint.
    pub fn finish_checkpoint(&mut self, interface_name: &String, commit: bool) -> (r: Result<(), OperationFailure>)
        ensures
            r is Ok,
            final(self)@ == (EnvironmentView {
                mutations: old(self)@.mutations.push((if commit { "checkpoint:commit:"@ } else { "checkpoint:rollback:"@ }) + interface_name@),
                actions: old(self)@.actions.push(if commit { SystemAction::CommitCheckpoint } else { SystemAction::RollbackCheckpoint }),
                ..old(self)@
            }),
    {
        let prefix = if commit { text("checkpoint:commit:") } else { text("checkpoint:rollback:") };
        let action = if commit { SystemAction::CommitCheckpoint } else { SystemAction::RollbackCheckpoint };
        self.record(prefix.concat(interface_name.as_str()), action);
        Ok(())
    }

    /// Brings up the temporary addressing that reaches an unconfigured device.
    pub fn prepare_bootstrap(&mut self, interface_name: &String) -> (r: Result<(), OperationFailure>)
        ensures
            r is Ok,
            final(self)@ == (EnvironmentView {
                mutations: old(self)@.mutations.push("bootstrap:temporary:"@ + interface_name@),
                actions: old(self)@.actions.push(SystemAction::PrepareBootstrap),
                bootstrap_active: true,
                ..old(self)@
            }),
    {
        self.record(text("bootstrap:temporary:").concat(interface_name.as_str()), SystemAction::PrepareBootstrap);
        self.bootstrap_active = true;
        Ok(())
    }

    /// Ends the temporary addressing; a removal is recorded only when it was active.
    pub fn finish_bootstrap(&mut self, interface_name: &String, remove: bool) -> (r: Result<(), OperationFailure>)
        ensures
            r is Ok,
            final(self)@ == (EnvironmentView {
                mutations: if remove && old(self).bootstrap_active {
                    old(self)@.mutations.push("bootstrap:remove:"@ + interface_name@)
                } else {
                    old(self)@.mutations
                },
                actions: if remove && old(self).bootstrap_active {
                    old(self)@.actions.push(SystemAction::RemoveBootstrap)
                } else {
                    old(self)@.actions
                },
                bootstrap_active: false,
                ..old(self)@
            }),
    {
        let was_active = self.bootstrap_active;
        self.bootstrap_active = false;
        if remove && was_active {
            self.record(text("bootstrap:remove:").concat(interface_name.as_str()), SystemAction::RemoveBootstrap);
        }
        Ok(())
    }

    /// Creates or updates the application-owned sharing profile and activates
    /// it, unless the host denies authorization.
    pub fn reconcile_managed(&mut self, interface_name: &String) -> (r: Result<(), OperationFailure>)
        requires
            old(self).host_sharing is Some,
        ensures
            old(self).host_sharing->0.authorization == AuthorizationState::Denied ==> {
                &&& r matches Err(f) && failures::is_authorization_denied(f)
                &&& final(self)@ == old(self)@
            },
            old(self).host_sharing->0.authorization != AuthorizationState::Denied ==> {
                &&& r is Ok
                &&& final(self)@ == (EnvironmentView {
                    mutations: old(self)@.mutations.push("managed:reconcile:"@ + interface_name@),
                    actions: old(self)@.actions.push(SystemAction::ReconcileManaged),
                    host_sharing: final(self).host_sharing,
                    ..old(self)@
                })
                &&& final(self).host_sharing matches Some(h) && is_managed_active(h, old(self).host_sharing->0)
            },
    {
        let current = self.host_sharing.as_ref().unwrap().copied();
        if current.authorization == AuthorizationState::Denied {
            return Err(failures::authorization_denied_failure());
        }
        self.record(text("managed:reconcile:").concat(interface_name.as_str()), SystemAction::ReconcileManaged);
        let mut next = current;
        next.profile_kind = ProfileKind::Managed;
        next.profile_name = Some(text("Puppis S1 Manager"));
        next.active = true;
        next.ipv4_shared = true;
        next.downstream_address = Some(text("192.168.137.1/24"));
        next.ipv6_disabled = true;
        next.autoconnect = true;
        self.host_sharing = Some(next);
        Ok(())
    }

    /// Refuses a change to a profile that this application does not own.
    fn ensure_owned_profile(&self) -> (r: Result<(), OperationFailure>)
        ensures
            (self.host_sharing matches Some(h) && h.profile_kind != ProfileKind::Managed) ==> (r matches Err(f) && failures::is_external_profile(f)),
            !(self.host_sharing matches Some(h) && h.profile_kind != ProfileKind::Managed) ==> r is Ok,
    {
        match &self.host_sharing {
            Some(h) => if h.profile_kind != ProfileKind::Managed {
                return Err(failures::external_profile_failure());
            },
            None => {},
        }
        Ok(())
    }

    /// Deactivates the owned profile and stops it connecting automatically.
    pub fn disable_managed(&mut self, interface_name: &String) -> (r: Result<(), OperationFailure>)
        requires
            old(self).host_sharing is Some,
        ensures
            old(self).host_sharing->0.profile_kind != ProfileKind::Managed ==> {
                &&& r matches Err(f) && failures::is_external_profile(f)
                &&& final(self)@ == old(self)@
            },
            old(self).host_sharing->0.profile_kind == ProfileKind::Managed ==> {
                &&& r is Ok
                &&& final(self)@ == (EnvironmentView {
                    mutations: old(self)@.mutations.push("managed:disable:"@ + interface_name@),
                    actions: old(self)@.actions.push(SystemAction::DisableManaged),
                    host_sharing: Some(HostSharingObservation { active: false, autoconnect: false, ..old(self).host_sharing->0 }),
                    ..old(self)@
                })
            },
    {
        self.ensure_owned_profile()?;
        self.record(text("managed:disable:").concat(interface_name.as_str()), SystemAction::DisableManaged);
        let mut next = self.host_sharing.as_ref().unwrap().copied();
        next.active = false;
        next.autoconnect = false;
        self.host_sharing = Some(next);
        Ok(())
    }

    /// Deactivates and deletes the owned profile.
    pub fn remove_managed(&mut self, interface_name: &String) -> (r: Result<(), OperationFailure>)
        requires
            old(self).host_sharing is Some,
        ensures
            old(self).host_sharing->0.profile_kind != ProfileKind::Managed ==> {
                &&& r matches Err(f) && failures::is_external_profile(f)
                &&& final(self)@ == old(self)@
            },
            old(self).host_sharing->0.profile_kind == ProfileKind::Managed ==> {
                &&& r is Ok
                &&& final(self)@ == (EnvironmentView {
                    mutations: old(self)@.mutations.push("managed:remove:"@ + interface_name@),
                    actions: old(self)@.actions.push(SystemAction::RemoveManaged),
                    host_sharing: Some(HostSharingObservation {
                        profile_kind: ProfileKind::Absent,
                        profile_name: None,
                        active: false,
                        ipv4_shared: false,
                        downstream_address: None,
                        autoconnect: false,
                        ..old(self).host_sharing->0
                    }),
                    ..old(self)@
                })
            },
    {
        self.ensure_owned_profile()?;
        self.record(text("managed:remove:").concat(interface_name.as_str()), SystemAction::RemoveManaged);
        let mut next = self.host_sharing.as_ref().unwrap().copied();
        next.profile_kind = ProfileKind::Absent;
        next.profile_name = None;
        next.active = false;
        next.ipv4_shared = false;
        next.downstream_address = None;
        next.autoconnect = false;
        self.host_sharing = Some(next);
        Ok(())
    }

    /// Reads the complete settings object of a radio (counted as a configuration read).
    pub fn read_radio(&mut self, band: RadioBand) -> (r: Result<RadioConfiguration, OperationFailure>)
        ensures
            final(self)@ == (EnvironmentView { configuration_read_count: counted(old(self).configuration_read_count), ..old(self)@ }),
            match radio_of(old(self)@, band) {
                Some(c) => r == Ok::<RadioConfiguration, OperationFailure>(c),
                None => r matches Err(f) && failures::is_radio_read_unavailable(f),
            },
    {
        if self.configuration_read_count < usize::MAX {
            self.configuration_read_count = self.configuration_read_count + 1;
        }
        let stored = match band {
            RadioBand::FiveGhz => copy_optional_radio(&self.five_ghz),
            RadioBand::TwoPointFourGhz => copy_optional_radio(&self.two_point_four_ghz),
        };
        match stored {
            Some(c) => Ok(c),
            None => Err(failures::radio_read_unavailable_failure()),
        }
    }

    /// Writes a complete radio settings object; the next scripted outcome
    /// (by default: apply the request) decides what the device stores.
    pub fn write_radio(&mut self, band: RadioBand, requested: &RadioConfiguration) -> (r: Result<(), OperationFailure>)
        ensures
            radio_write_outcome(old(self)@, band, *requested, final(self)@, r),
    {
        let entry = match band {
            RadioBand::FiveGhz => text("radio:set:").concat("FiveGhz"),
            RadioBand::TwoPointFourGhz => text("radio:set:").concat("TwoPointFourGhz"),
        };
        let previous = match band {
            RadioBand::FiveGhz => copy_optional_radio(&self.five_ghz),
            RadioBand::TwoPointFourGhz => copy_optional_radio(&self.two_point_four_ghz),
        };
        self.record(entry, SystemAction::WriteRadio(band, requested.copied(), previous));
        let ghost effects_before = self.radio_write_effects@;
        let effect = if self.radio_write_effects.len() > 0 {
            let e = self.radio_write_effects.remove(0);
            assert(self.radio_write_effects@ =~= effects_before.drop_first());
            e
        } else {
            RadioWriteEffect::ApplyRequested
        };
        match effect {
            RadioWriteEffect::ApplyRequested => {
                let c = requested.copied();
                match band {
                    RadioBand::FiveGhz => self.five_ghz = Some(c),
                    RadioBand::TwoPointFourGhz => self.two_point_four_ghz = Some(c),
                }
                Ok(())
            },
            RadioWriteEffect::Apply(c) => {
                match band {
                    RadioBand::FiveGhz => self.five_ghz = Some(c),
                    RadioBand::TwoPointFourGhz => self.two_point_four_ghz = Some(c),
                }
                Ok(())
            },
            RadioWriteEffect::Fail => Err(failures::radio_write_failed_failure()),
            RadioWriteEffect::Unverifiable => {
                match band {
                    RadioBand::FiveGhz => self.five_ghz = None,
                    RadioBand::TwoPointFourGhz => self.two_point_four_ghz = None,
                }
                Err(failures::radio_write_failed_failure())
            },
        }
    }

    /// Sets or clears the interrupted-transaction marker.
    pub fn set_interrupted_marker(&mut self, present: bool)
        ensures
            final(self)@ == (EnvironmentView { interrupted: present, actions: old(self)@.actions.push(SystemAction::SetMarker(present)), ..old(self)@ }),
    {
        self.interrupted = present;
        self.actions.push(SystemAction::SetMarker(present));
    }

    /// Reads the device role.
    pub fn read_role(&self) -> (r: Result<DeviceRole, OperationFailure>)
        ensures
            match self.role {
                Some(role) => r == Ok::<DeviceRole, OperationFailure>(role),
                None => r matches Err(f) && failures::is_role_unavailable(f),
            },
    {
        match self.role {
            Some(role) => Ok(role),
            None => Err(failures::role_unavailable_failure()),
        }
    }

    /// Writes the device role; the next scripted outcome (by default: apply
    /// the request) decides what the device stores.
    pub fn write_role(&mut self, requested: DeviceRole) -> (r: Result<(), OperationFailure>)
        ensures
            role_write_outcome(old(self)@, requested, final(self)@, r),
    {
        let previous = self.role;
        self.record(text("device:set-role"), SystemAction::WriteRole(requested, previous));
        let ghost effects_before = self.role_write_effects@;
        let effect = if self.role_write_effects.len() > 0 {
            let e = self.role_write_effects.remove(0);
            assert(self.role_write_effects@ =~= effects_before.drop_first());
            e
        } else {
            RoleWriteEffect::ApplyRequested
        };
        match effect {
            RoleWriteEffect::ApplyRequested => {
                self.role = Some(requested);
                Ok(())
            },
            RoleWriteEffect::Apply(role) => {
                self.role = Some(role);
                Ok(())
            },
            RoleWriteEffect::Fail => Err(failures::role_write_failed_failure()),
            RoleWriteEffect::Unverifiable => {
                self.role = None;
                Err(failures::role_write_failed_failure())
            },
        }
    }

    /// Reads client telemetry: the device's connected hardware addresses
    /// (without addresses) and the host's recent observations.
    pub fn read_client_evidence(&mut self, interface_name: &String) -> (r: (Vec<ClientNetworkObservation>, Vec<ClientNetworkObservation>))
        ensures
            final(self)@ == (EnvironmentView { telemetry_read_count: counted(old(self).telemetry_read_count), ..old(self)@ }),
            r.0@ == old(self).connected_clients@.map_values(|h: String| ClientNetworkObservation { hardware_address: h, address: None }),
            r.1@ == old(self).recent_clients@,
    {
        if self.telemetry_read_count < usize::MAX {
            self.telemetry_read_count = self.telemetry_read_count + 1;
        }
        let mut connected: Vec<ClientNetworkObservation> = Vec::new();
        for i in 0..self.connected_clients.len()
            invariant
                connected@ == self.connected_clients@.take(i as int).map_values(|h: String| ClientNetworkObservation { hardware_address: h, address: None }),
        {
            connected.push(ClientNetworkObservation { hardware_address: self.connected_clients[i].clone(), address: None });
            assert(self.connected_clients@.take(i + 1 as int) =~= self.connected_clients@.take(i as int).push(self.connected_clients@[i as int]));
            assert(connected@ =~= self.connected_clients@.take(i + 1 as int).map_values(|h: String| ClientNetworkObservation { hardware_address: h, address: None }));
        }
        assert(self.connected_clients@.take(self.connected_clients.len() as int) =~= self.connected_clients@);
        (connected, copy_observations(&self.recent_clients))
    }
}

/// The managed profile state that reconciliation establishes from `before`.
pub open spec fn is_managed_active(h: HostSharingObservation, before: HostSharingObservation) -> bool {
    &&& h.profile_kind == ProfileKind::Managed
    &&& h.profile_name matches Some(n) && n@ == "Puppis S1 Manager"@
    &&& h.active
    &&& h.ipv4_shared
    &&& h.downstream_address matches Some(a) && a@ == "192.168.137.1/24"@
    &&& h.ipv6_disabled
    &&& h.autoconnect
    &&& h.upstream_available == before.upstream_available
    &&& h.upstream_description == before.upstream_description
    &&& h.subnet_conflict == before.subnet_conflict
    &&& h.authorization == before.authorization
}

/// The environment after a radio write of `requested` on `band`, and the
/// write's result: the next scripted outcome decides.
pub open spec fn radio_write_outcome(
    before: EnvironmentView,
    band: RadioBand,
    requested: RadioConfiguration,
    after: EnvironmentView,
    r: Result<(), OperationFailure>,
) -> bool {
    let logged = EnvironmentView {
        mutations: before.mutations.push("radio:set:"@ + band_name(band)),
        actions: before.actions.push(SystemAction::WriteRadio(band, requested, radio_of(before, band))),
        radio_write_effects: if before.radio_write_effects.len() > 0 { before.radio_write_effects.drop_first() } else { before.radio_write_effects },
        ..before
    };
    let effect = if before.radio_write_effects.len() > 0 { before.radio_write_effects[0] } else { RadioWriteEffect::ApplyRequested };
    match effect {
        RadioWriteEffect::ApplyRequested => r is Ok && after == with_radio_of(logged, band, requested),
        RadioWriteEffect::Apply(c) => r is Ok && after == with_radio_of(logged, band, c),
        RadioWriteEffect::Fail => (r matches Err(f) && failures::is_radio_write_failed(f)) && after == logged,
        RadioWriteEffect::Unverifiable => (r matches Err(f) && failures::is_radio_write_failed(f)) && after == without_radio_of(logged, band),
    }
}

/// The environment after a role write of `requested`, and the write's
/// result: the next scripted outcome decides.
pub open spec fn role_write_outcome(
    before: EnvironmentView,
    requested: DeviceRole,
    after: EnvironmentView,
    r: Result<(), OperationFailure>,
) -> bool {
    let logged = EnvironmentView {
        mutations: before.mutations.push("device:set-role"@),
        actions: before.actions.push(SystemAction::WriteRole(requested, before.role)),
        role_write_effects: if before.role_write_effects.len() > 0 { before.role_write_effects.drop_first() } else { before.role_write_effects },
        ..before
    };
    let effect = if before.role_write_effects.len() > 0 { before.role_write_effects[0] } else { RoleWriteEffect::ApplyRequested };
    match effect {
        RoleWriteEffect::ApplyRequested => r is Ok && after == EnvironmentView { role: Some(requested), ..logged },
        RoleWriteEffect::Apply(role) => r is Ok && after == EnvironmentView { role: Some(role), ..logged },
        RoleWriteEffect::Fail => (r matches Err(f) && failures::is_role_write_failed(f)) && after == logged,
        RoleWriteEffect::Unverifiable => (r matches Err(f) && failures::is_role_write_failed(f)) && after == EnvironmentView { role: None, ..logged },
    }
}

/// A copy of a list of scripted radio write outcomes.
fn copy_radio_effects(v: &Vec<RadioWriteEffect>) -> (r: Vec<RadioWriteEffect>)
    ensures
        r@ == v@,
{
    let mut r: Vec<RadioWriteEffect> = Vec::new();
    for i in 0..v.len()
        invariant
            r@ == v@.take(i as int),
    {
        let e = match &v[i] {
            RadioWriteEffect::ApplyRequested => RadioWriteEffect::ApplyRequested,
            RadioWriteEffect::Apply(c) => RadioWriteEffect::Apply(c.copied()),
            RadioWriteEffect::Fail => RadioWriteEffect::Fail,
            RadioWriteEffect::Unverifiable => RadioWriteEffect::Unverifiable,
        };
        r.push(e);
        assert(r@ =~= v@.take(i + 1 as int));
    }
    assert(v@.take(v.len() as int) =~= v@);
    r
}

/// A copy of a list of scripted role write outcomes.
fn copy_role_effects(v: &Vec<RoleWriteEffect>) -> (r: Vec<RoleWriteEffect>)
    ensures
        r@ == v@,
{
    let mut r: Vec<RoleWriteEffect> = Vec::new();
    for i in 0..v.len()
        invariant
            r@ == v@.take(i as int),
    {
        r.push(v[i]);
        assert(r@ =~= v@.take(i + 1 as int));
    }
    assert(v@.take(v.len() as int) =~= v@);
    r
}

/// A copy of a list of outside actions.
fn copy_actions(v: &Vec<SystemAction>) -> (r: Vec<SystemAction>)
    ensures
        r@ == v@,
{
    let mut r: Vec<SystemAction> = Vec::new();
    for i in 0..v.len()
        invariant
            r@ == v@.take(i as int),
    {
        r.push(v[i].copied());
        assert(r@ =~= v@.take(i + 1 as int));
    }
    assert(v@.take(v.len() as int) =~= v@);
    r
}

impl InMemoryEnvironment {
    /// A copy of the environment.
    pub fn copied(&self) -> (r: InMemoryEnvironment)
        ensures
            r@ == self@,
    {
        InMemoryEnvironment {
            candidates: copy_candidates(&self.candidates),
            identity: crate::model::copy_optional_identity(&self.identity),
            host_sharing: crate::model::copy_optional_host(&self.host_sharing),
            mutations: copy_texts(&self.mutations),
            five_ghz: copy_optional_radio(&self.five_ghz),
            two_point_four_ghz: copy_optional_radio(&self.two_point_four_ghz),
            radio_write_effects: copy_radio_effects(&self.radio_write_effects),
            interrupted: self.interrupted,
            role: self.role,
            role_write_effects: copy_role_effects(&self.role_write_effects),
            connected_clients: copy_texts(&self.connected_clients),
            recent_clients: copy_observations(&self.recent_clients),
            telemetry_read_count: self.telemetry_read_count,
            configuration_read_count: self.configuration_read_count,
            identity_failures_remaining: self.identity_failures_remaining,
            bootstrap_active: self.bootstrap_active,
            current_time: self.current_time,
            saved_clients: crate::model::copy_saved_clients(&self.saved_clients),
            saved_clients_storage: self.saved_clients_storage,
            saved_clients_failure: crate::model::copy_optional_failure(&self.saved_clients_failure),
            actions: copy_actions(&self.actions),
        }
    }

    /// The device answered a radio write as `effect` says: the next radio
    /// write of the model takes that outcome.
    pub fn answer_radio_write(&mut self, effect: RadioWriteEffect)
        ensures
            final(self)@ == (EnvironmentView { radio_write_effects: old(self)@.radio_write_effects.push(effect), ..old(self)@ }),
    {
        self.radio_write_effects.push(effect);
    }

    /// The device answered a role write as `effect` says: the next role
    /// write of the model takes that outcome.
    pub fn answer_role_write(&mut self, effect: RoleWriteEffect)
        ensures
            final(self)@ == (EnvironmentView { role_write_effects: old(self)@.role_write_effects.push(effect), ..old(self)@ }),
    {
        self.role_write_effects.push(effect);
    }

    /// The host denied the authorization that reconciling the owned profile needs.
    pub fn deny_authorization(&mut self)
        ensures
            final(self)@ == (EnvironmentView {
                host_sharing: match old(self)@.host_sharing {
                    Some(h) => Some(HostSharingObservation { authorization: AuthorizationState::Denied, ..h }),
                    None => None,
                },
                ..old(self)@
            }),
    {
        match &self.host_sharing {
            Some(h) => {
                let mut next = h.copied();
                next.authorization = AuthorizationState::Denied;
                self.host_sharing = Some(next);
            },
            None => {},
        }
    }

    /// What reading the device identity gave: an identity (whose role code
    /// names the role), or a failure. An unreachable device is remembered as
    /// one failed read, so that a temporary bootstrap is tried.
    pub fn observe_identity(&mut self, read: Result<DeviceIdentity, OperationFailure>)
        ensures
            match read {
                Ok(identity) => final(self)@ == (EnvironmentView {
                    identity: Some(identity),
                    role: role_for_code(identity.role_code@),
                    identity_failures_remaining: 0,
                    ..old(self)@
                }),
                Err(f) => final(self)@ == (EnvironmentView {
                    identity: None,
                    identity_failures_remaining: if f.code@ == "protocol_unreachable"@ { 1 } else { 0 },
                    ..old(self)@
                }),
            },
    {
        match read {
            Ok(identity) => {
                self.role = DeviceRole::from_code(&identity.role_code);
                self.identity = Some(identity);
                self.identity_failures_remaining = 0;
            },
            Err(f) => {
                self.identity = None;
                self.identity_failures_remaining = if is_text(&f.code, "protocol_unreachable") { 1 } else { 0 };
            },
        }
    }

    /// What reading the identity gave once the temporary bootstrap was up;
    /// earlier failed reads stay as they were.
    pub fn answer_identity(&mut self, read: Result<DeviceIdentity, OperationFailure>)
        ensures
            match read {
                Ok(identity) => final(self)@ == (EnvironmentView {
                    identity: Some(identity),
                    role: role_for_code(identity.role_code@),
                    ..old(self)@
                }),
                Err(_) => final(self)@ == (EnvironmentView { identity: None, ..old(self)@ }),
            },
    {
        match read {
            Ok(identity) => {
                self.role = DeviceRole::from_code(&identity.role_code);
                self.identity = Some(identity);
            },
            Err(_) => self.identity = None,
        }
    }
}

impl Default for InMemoryEnvironment {
    /// An environment without candidates, device, host state or observations.
    fn default() -> (r: InMemoryEnvironment)
        ensures
            is_empty_environment(r@),
    {
        InMemoryEnvironment::with_candidates(Vec::new())
    }
}

} // verus!
