//! Value types shared by the application core: candidates, identities,
//! host-sharing observations, radio settings, client evidence and the
//! application snapshot that the user interface renders.

use vstd::prelude::*;

verus! {

/// The only firmware build on which device mutations are qualified.
pub const QUALIFIED_FIRMWARE: &'static str = "B-MD2FP1411V1.22-250108-r0e17";

/// Severity of one status dimension.
#[derive(Debug, Clone, Copy, PartialEq, Eq, Structural)]
pub enum StatusLevel {
    Healthy,
    Attention,
    Unavailable,
    Unknown,
}

/// One independently explained aspect of the application state.
#[derive(Debug, Clone, PartialEq, Eq)]
pub struct StatusDimension {
    pub level: StatusLevel,
    pub summary: String,
    pub guidance: Option<String>,
}

/// The USB link speed reported for a candidate adapter.
#[derive(Debug, Clone, Copy, PartialEq, Eq, Structural)]
pub enum UsbLinkSpeed {
    SuperSpeed,
    Usb2,
    Unknown,
}

/// A USB network adapter that may be a Puppis.
#[derive(Debug, Clone, PartialEq, Eq)]
pub struct PuppisCandidate {
    pub id: String,
    pub interface_name: String,
    pub display_name: String,
    pub link_speed: UsbLinkSpeed,
}

/// What the device reported about itself over the protocol.
#[derive(Debug, Clone, PartialEq, Eq)]
pub struct DeviceIdentity {
    pub model: String,
    pub firmware: String,
    pub role_code: String,
}

/// The operating role of the device.
#[derive(Debug, Clone, Copy, PartialEq, Eq, Structural)]
pub enum DeviceRole {
    PrismPulse,
    WifiHotspot,
    WifiAdapter,
}

/// Scripted outcome of one role write in the in-memory environment.
#[derive(Debug, Clone, Copy, PartialEq, Eq, Structural)]
pub enum RoleWriteEffect {
    ApplyRequested,
    Apply(DeviceRole),
    Fail,
    /// The write failed and the role could not be read back.
    Unverifiable,
}

/// How strongly a client is known to be present.
#[derive(Debug, Clone, Copy, PartialEq, Eq, Structural)]
pub enum ClientEvidenceKind {
    Connected,
    RecentlyObserved,
}

/// One raw observation of a client on the Puppis-facing network.
#[derive(Debug, Clone, PartialEq, Eq, PartialOrd, Ord)]
pub struct ClientNetworkObservation {
    pub hardware_address: String,
    pub address: Option<String>,
}

/// A client as presented to the user: grouped by hardware address.
#[derive(Debug, Clone, PartialEq, Eq)]
pub struct ClientEvidence {
    pub alias: String,
    pub display_name: String,
    pub hardware_address: String,
    pub addresses: Vec<String>,
    pub kind: ClientEvidenceKind,
    pub saved: bool,
}

/// A client label that the user chose to remember.
#[derive(Debug, Clone, PartialEq, Eq)]
pub struct SavedClient {
    pub label: String,
    pub hardware_address: String,
    pub last_observed_at: u64,
    pub addresses: Vec<String>,
}

/// Who owns the sharing profile of the selected interface.
#[derive(Debug, Clone, Copy, PartialEq, Eq, Structural)]
pub enum ProfileKind {
    Absent,
    Managed,
    External,
}

/// Whether host network changes are authorized.
#[derive(Debug, Clone, Copy, PartialEq, Eq, Structural)]
pub enum AuthorizationState {
    Allowed,
    Prompt,
    Denied,
    Unknown,
}

/// The observed host-side sharing state of the selected interface.
#[derive(Debug, Clone, PartialEq, Eq)]
pub struct HostSharingObservation {
    pub upstream_available: bool,
    pub upstream_description: Option<String>,
    pub profile_kind: ProfileKind,
    pub profile_name: Option<String>,
    pub active: bool,
    pub ipv4_shared: bool,
    pub downstream_address: Option<String>,
    pub ipv6_disabled: bool,
    pub autoconnect: bool,
    pub subnet_conflict: bool,
    pub authorization: AuthorizationState,
}

/// One of the two radios of the device.
#[derive(Debug, Clone, Copy, PartialEq, Eq, Hash, Structural)]
pub enum RadioBand {
    FiveGhz,
    TwoPointFourGhz,
}

/// The complete settings object of one radio, secret included. It has no
/// `Debug`, so the password cannot reach a debug rendering.
#[derive(Clone, PartialEq, Eq)]
pub struct RadioConfiguration {
    pub ssid: String,
    pub password: String,
    pub protection: String,
    pub channel: String,
    pub country: String,
    pub enabled: String,
    pub encryption: String,
    pub bandwidth: String,
}

/// The non-secret state and the capabilities of one radio.
#[derive(Debug, Clone, PartialEq, Eq)]
pub struct RadioSnapshot {
    pub band: RadioBand,
    pub ssid: String,
    pub channel: String,
    pub country: String,
    pub enabled: bool,
    pub bandwidth: String,
    pub ssid_mutation: bool,
    pub password_mutation: bool,
    pub qualified_channels: Vec<String>,
    pub password_unavailable_reason: Option<String>,
}

/// Requested changes to one radio; absent fields stay unchanged.
#[derive(Clone, Default)]
pub struct RadioUpdate {
    pub ssid: Option<String>,
    pub channel: Option<String>,
    pub password: Option<String>,
}

/// Scripted outcome of one radio write in the in-memory environment.
#[derive(Clone, PartialEq, Eq)]
pub enum RadioWriteEffect {
    ApplyRequested,
    Apply(RadioConfiguration),
    Fail,
    /// The write failed and the radio's settings could not be read back.
    Unverifiable,
}

/// A stable, user-safe description of why an operation failed.
#[derive(Debug, Clone, PartialEq, Eq)]
pub struct OperationFailure {
    pub code: String,
    pub message: String,
    pub guidance: String,
    pub diagnostic_reference: Option<String>,
}

/// Everything the user interface shows.
#[derive(Debug, Clone, PartialEq, Eq)]
pub struct ApplicationSnapshot {
    pub revision: u64,
    pub observed_status_at: Option<u64>,
    pub candidates: Vec<PuppisCandidate>,
    pub selected_candidate_id: Option<String>,
    pub verified_puppis: Option<DeviceIdentity>,
    pub mutations_qualified: bool,
    pub host_sharing: Option<HostSharingObservation>,
    pub radios: Vec<RadioSnapshot>,
    pub recovery_required: bool,
    pub device_role: Option<DeviceRole>,
    pub client_evidence: Vec<ClientEvidence>,
    pub saved_clients: Vec<SavedClient>,
    pub saved_clients_available: bool,
    pub saved_clients_failure: Option<OperationFailure>,
    pub usb: StatusDimension,
    pub sharing: StatusDimension,
    pub protocol: StatusDimension,
    pub configuration: StatusDimension,
    pub clients: StatusDimension,
    pub active_operation: Option<String>,
    pub last_failure: Option<OperationFailure>,
}

} // verus!

verus! {

/// The texts of a list of strings.
pub open spec fn texts(v: Seq<String>) -> Seq<Seq<char>> {
    v.map_values(|s: String| s@)
}

/// A saved client with its texts as character sequences.
pub struct SavedClientView {
    pub label: Seq<char>,
    pub hardware_address: Seq<char>,
    pub last_observed_at: u64,
    pub addresses: Seq<Seq<char>>,
}

impl View for SavedClient {
    type V = SavedClientView;

    open spec fn view(&self) -> SavedClientView {
        SavedClientView {
            label: self.label@,
            hardware_address: self.hardware_address@,
            last_observed_at: self.last_observed_at,
            addresses: texts(self.addresses@),
        }
    }
}

/// Client evidence with its texts as character sequences.
pub struct ClientEvidenceView {
    pub alias: Seq<char>,
    pub display_name: Seq<char>,
    pub hardware_address: Seq<char>,
    pub addresses: Seq<Seq<char>>,
    pub kind: ClientEvidenceKind,
    pub saved: bool,
}

impl View for ClientEvidence {
    type V = ClientEvidenceView;

    open spec fn view(&self) -> ClientEvidenceView {
        ClientEvidenceView {
            alias: self.alias@,
            display_name: self.display_name@,
            hardware_address: self.hardware_address@,
            addresses: texts(self.addresses@),
            kind: self.kind,
            saved: self.saved,
        }
    }
}

/// A radio snapshot with its texts as character sequences.
pub struct RadioSnapshotView {
    pub band: RadioBand,
    pub ssid: Seq<char>,
    pub channel: Seq<char>,
    pub country: Seq<char>,
    pub enabled: bool,
    pub bandwidth: Seq<char>,
    pub ssid_mutation: bool,
    pub password_mutation: bool,
    pub qualified_channels: Seq<Seq<char>>,
    pub password_unavailable_reason: Option<Seq<char>>,
}

/// The text of an optional string.
pub open spec fn optional_text(s: Option<String>) -> Option<Seq<char>> {
    match s {
        Some(v) => Some(v@),
        None => None,
    }
}

impl View for RadioSnapshot {
    type V = RadioSnapshotView;

    open spec fn view(&self) -> RadioSnapshotView {
        RadioSnapshotView {
            band: self.band,
            ssid: self.ssid@,
            channel: self.channel@,
            country: self.country@,
            enabled: self.enabled,
            bandwidth: self.bandwidth@,
            ssid_mutation: self.ssid_mutation,
            password_mutation: self.password_mutation,
            qualified_channels: texts(self.qualified_channels@),
            password_unavailable_reason: optional_text(self.password_unavailable_reason),
        }
    }
}

pub open spec fn saved_views(v: Seq<SavedClient>) -> Seq<SavedClientView> {
    v.map_values(|c: SavedClient| c@)
}

pub open spec fn evidence_views(v: Seq<ClientEvidence>) -> Seq<ClientEvidenceView> {
    v.map_values(|c: ClientEvidence| c@)
}

pub open spec fn radio_views(v: Seq<RadioSnapshot>) -> Seq<RadioSnapshotView> {
    v.map_values(|r: RadioSnapshot| r@)
}

/// The application snapshot with its lists as sequences of views.
pub struct ApplicationSnapshotView {
    pub revision: u64,
    pub observed_status_at: Option<u64>,
    pub candidates: Seq<PuppisCandidate>,
    pub selected_candidate_id: Option<String>,
    pub verified_puppis: Option<DeviceIdentity>,
    pub mutations_qualified: bool,
    pub host_sharing: Option<HostSharingObservation>,
    pub radios: Seq<RadioSnapshotView>,
    pub recovery_required: bool,
    pub device_role: Option<DeviceRole>,
    pub client_evidence: Seq<ClientEvidenceView>,
    pub saved_clients: Seq<SavedClientView>,
    pub saved_clients_available: bool,
    pub saved_clients_failure: Option<OperationFailure>,
    pub usb: StatusDimension,
    pub sharing: StatusDimension,
    pub protocol: StatusDimension,
    pub configuration: StatusDimension,
    pub clients: StatusDimension,
    pub active_operation: Option<String>,
    pub last_failure: Option<OperationFailure>,
}

impl View for ApplicationSnapshot {
    type V = ApplicationSnapshotView;

    open spec fn view(&self) -> ApplicationSnapshotView {
        ApplicationSnapshotView {
            revision: self.revision,
            observed_status_at: self.observed_status_at,
            candidates: self.candidates@,
            selected_candidate_id: self.selected_candidate_id,
            verified_puppis: self.verified_puppis,
            mutations_qualified: self.mutations_qualified,
            host_sharing: self.host_sharing,
            radios: radio_views(self.radios@),
            recovery_required: self.recovery_required,
            device_role: self.device_role,
            client_evidence: evidence_views(self.client_evidence@),
            saved_clients: saved_views(self.saved_clients@),
            saved_clients_available: self.saved_clients_available,
            saved_clients_failure: self.saved_clients_failure,
            usb: self.usb,
            sharing: self.sharing,
            protocol: self.protocol,
            configuration: self.configuration,
            clients: self.clients,
            active_operation: self.active_operation,
            last_failure: self.last_failure,
        }
    }
}

/// The status carries this level and summary and no guidance.
pub open spec fn status_is(s: StatusDimension, level: StatusLevel, summary: &str) -> bool {
    &&& s.level == level
    &&& s.summary@ == summary@
    &&& s.guidance is None
}

/// The status carries this level, summary and guidance.
pub open spec fn status_guided(s: StatusDimension, level: StatusLevel, summary: &str, guidance: &str) -> bool {
    &&& s.level == level
    &&& s.summary@ == summary@
    &&& s.guidance matches Some(g) && g@ == guidance@
}

impl StatusDimension {
    /// An unavailable dimension with the given summary.
    pub fn unavailable(summary: &str) -> (s: StatusDimension)
        ensures
            status_is(s, StatusLevel::Unavailable, summary),
    {
        StatusDimension { level: StatusLevel::Unavailable, summary: summary.to_owned(), guidance: None }
    }

    /// A dimension with a summary and no guidance.
    pub fn plain(level: StatusLevel, summary: &str) -> (s: StatusDimension)
        ensures
            status_is(s, level, summary),
    {
        StatusDimension { level, summary: summary.to_owned(), guidance: None }
    }

    /// A dimension with a summary and guidance.
    pub fn guided(level: StatusLevel, summary: &str, guidance: &str) -> (s: StatusDimension)
        ensures
            status_guided(s, level, summary, guidance),
    {
        StatusDimension { level, summary: summary.to_owned(), guidance: Some(guidance.to_owned()) }
    }

    pub fn copied(&self) -> (r: StatusDimension)
        ensures
            r == *self,
    {
        StatusDimension { level: self.level, summary: self.summary.clone(), guidance: crate::text::copy_optional_text(&self.guidance) }
    }
}

impl PuppisCandidate {
    pub fn copied(&self) -> (r: PuppisCandidate)
        ensures
            r == *self,
    {
        PuppisCandidate {
            id: self.id.clone(),
            interface_name: self.interface_name.clone(),
            display_name: self.display_name.clone(),
            link_speed: self.link_speed,
        }
    }
}

impl DeviceIdentity {
    pub fn copied(&self) -> (r: DeviceIdentity)
        ensures
            r == *self,
    {
        DeviceIdentity { model: self.model.clone(), firmware: self.firmware.clone(), role_code: self.role_code.clone() }
    }
}

impl ClientNetworkObservation {
    pub fn copied(&self) -> (r: ClientNetworkObservation)
        ensures
            r == *self,
    {
        ClientNetworkObservation { hardware_address: self.hardware_address.clone(), address: crate::text::copy_optional_text(&self.address) }
    }

    /// An observation of a hardware address (stored ASCII lower-case) at an address.
    pub fn fixture(hardware_address: &str, address: &str) -> (r: ClientNetworkObservation)
        ensures
            r.hardware_address@ == hardware_address@.map_values(|c: char| crate::text::ascii_lower(c)),
            r.address matches Some(a) && a@ == address@,
    {
        ClientNetworkObservation { hardware_address: crate::text::ascii_lowercase(hardware_address), address: Some(address.to_owned()) }
    }
}

impl HostSharingObservation {
    pub fn copied(&self) -> (r: HostSharingObservation)
        ensures
            r == *self,
    {
        HostSharingObservation {
            upstream_available: self.upstream_available,
            upstream_description: crate::text::copy_optional_text(&self.upstream_description),
            profile_kind: self.profile_kind,
            profile_name: crate::text::copy_optional_text(&self.profile_name),
            active: self.active,
            ipv4_shared: self.ipv4_shared,
            downstream_address: crate::text::copy_optional_text(&self.downstream_address),
            ipv6_disabled: self.ipv6_disabled,
            autoconnect: self.autoconnect,
            subnet_conflict: self.subnet_conflict,
            authorization: self.authorization,
        }
    }
}

impl RadioConfiguration {
    pub fn copied(&self) -> (r: RadioConfiguration)
        ensures
            r == *self,
    {
        RadioConfiguration {
            ssid: self.ssid.clone(),
            password: self.password.clone(),
            protection: self.protection.clone(),
            channel: self.channel.clone(),
            country: self.country.clone(),
            enabled: self.enabled.clone(),
            encryption: self.encryption.clone(),
            bandwidth: self.bandwidth.clone(),
        }
    }

    /// Whether two configurations hold the same texts in every field.
    pub fn same_as(&self, other: &RadioConfiguration) -> (r: bool)
        ensures
            r == radio_configuration_equal(*self, *other),
    {
        self.ssid == other.ssid && self.password == other.password && self.protection == other.protection
            && self.channel == other.channel && self.country == other.country && self.enabled == other.enabled
            && self.encryption == other.encryption && self.bandwidth == other.bandwidth
    }

    /// A configuration with the given texts, protection "0", enabled "0" and encryption "5".
    pub fn fixture(ssid: &str, password: &str, channel: &str, country: &str, bandwidth: &str) -> (r: RadioConfiguration)
        ensures
            r.ssid@ == ssid@,
            r.password@ == password@,
            r.protection@ == "0"@,
            r.channel@ == channel@,
            r.country@ == country@,
            r.enabled@ == "0"@,
            r.encryption@ == "5"@,
            r.bandwidth@ == bandwidth@,
    {
        RadioConfiguration {
            ssid: ssid.to_owned(),
            password: password.to_owned(),
            protection: "0".to_owned(),
            channel: channel.to_owned(),
            country: country.to_owned(),
            enabled: "0".to_owned(),
            encryption: "5".to_owned(),
            bandwidth: bandwidth.to_owned(),
        }
    }
}

/// Two configurations agree on every text.
pub open spec fn radio_configuration_equal(a: RadioConfiguration, b: RadioConfiguration) -> bool {
    &&& a.ssid@ == b.ssid@
    &&& a.password@ == b.password@
    &&& a.protection@ == b.protection@
    &&& a.channel@ == b.channel@
    &&& a.country@ == b.country@
    &&& a.enabled@ == b.enabled@
    &&& a.encryption@ == b.encryption@
    &&& a.bandwidth@ == b.bandwidth@
}

impl SavedClient {
    pub fn copied(&self) -> (r: SavedClient)
        ensures
            r@ == self@,
    {
        SavedClient {
            label: self.label.clone(),
            hardware_address: self.hardware_address.clone(),
            last_observed_at: self.last_observed_at,
            addresses: crate::text::copy_texts(&self.addresses),
        }
    }
}

impl ClientEvidence {
    pub fn copied(&self) -> (r: ClientEvidence)
        ensures
            r@ == self@,
    {
        ClientEvidence {
            alias: self.alias.clone(),
            display_name: self.display_name.clone(),
            hardware_address: self.hardware_address.clone(),
            addresses: crate::text::copy_texts(&self.addresses),
            kind: self.kind,
            saved: self.saved,
        }
    }
}

impl RadioSnapshot {
    pub fn copied(&self) -> (r: RadioSnapshot)
        ensures
            r@ == self@,
    {
        RadioSnapshot {
            band: self.band,
            ssid: self.ssid.clone(),
            channel: self.channel.clone(),
            country: self.country.clone(),
            enabled: self.enabled,
            bandwidth: self.bandwidth.clone(),
            ssid_mutation: self.ssid_mutation,
            password_mutation: self.password_mutation,
            qualified_channels: crate::text::copy_texts(&self.qualified_channels),
            password_unavailable_reason: crate::text::copy_optional_text(&self.password_unavailable_reason),
        }
    }
}

pub fn copy_candidates(v: &Vec<PuppisCandidate>) -> (r: Vec<PuppisCandidate>)
    ensures
        r@ == v@,
{
    let mut r: Vec<PuppisCandidate> = Vec::new();
    for i in 0..v.len()
        invariant
            r@ == v@.take(i as int),
    {
        r.push(v[i].copied());
        assert(r@ =~= v@.take(i + 1 as int));
    }
    assert(v@.take(v.len() as int) =~= v@);
    r
}

pub fn copy_observations(v: &Vec<ClientNetworkObservation>) -> (r: Vec<ClientNetworkObservation>)
    ensures
        r@ == v@,
{
    let mut r: Vec<ClientNetworkObservation> = Vec::new();
    for i in 0..v.len()
        invariant
            r@ == v@.take(i as int),
    {
        r.push(v[i].copied());
        assert(r@ =~= v@.take(i + 1 as int));
    }
    assert(v@.take(v.len() as int) =~= v@);
    r
}

pub fn copy_saved_clients(v: &Vec<SavedClient>) -> (r: Vec<SavedClient>)
    ensures
        saved_views(r@) == saved_views(v@),
{
    let mut r: Vec<SavedClient> = Vec::new();
    for i in 0..v.len()
        invariant
            r@.len() == i,
            forall|j: int| 0 <= j < i ==> r@[j]@ == v@[j]@,
    {
        r.push(v[i].copied());
    }
    assert(saved_views(r@) =~= saved_views(v@));
    r
}

pub fn copy_evidence(v: &Vec<ClientEvidence>) -> (r: Vec<ClientEvidence>)
    ensures
        evidence_views(r@) == evidence_views(v@),
{
    let mut r: Vec<ClientEvidence> = Vec::new();
    for i in 0..v.len()
        invariant
            r@.len() == i,
            forall|j: int| 0 <= j < i ==> r@[j]@ == v@[j]@,
    {
        r.push(v[i].copied());
    }
    assert(evidence_views(r@) =~= evidence_views(v@));
    r
}

pub fn copy_radios(v: &Vec<RadioSnapshot>) -> (r: Vec<RadioSnapshot>)
    ensures
        radio_views(r@) == radio_views(v@),
{
    let mut r: Vec<RadioSnapshot> = Vec::new();
    for i in 0..v.len()
        invariant
            r@.len() == i,
            forall|j: int| 0 <= j < i ==> r@[j]@ == v@[j]@,
    {
        r.push(v[i].copied());
    }
    assert(radio_views(r@) =~= radio_views(v@));
    r
}

pub fn copy_optional_identity(v: &Option<DeviceIdentity>) -> (r: Option<DeviceIdentity>)
    ensures
        r == *v,
{
    match v {
        Some(i) => Some(i.copied()),
        None => None,
    }
}

pub fn copy_optional_host(v: &Option<HostSharingObservation>) -> (r: Option<HostSharingObservation>)
    ensures
        r == *v,
{
    match v {
        Some(i) => Some(i.copied()),
        None => None,
    }
}

pub fn copy_optional_failure(v: &Option<OperationFailure>) -> (r: Option<OperationFailure>)
    ensures
        r == *v,
{
    match v {
        Some(i) => Some(i.copied()),
        None => None,
    }
}

pub fn copy_optional_radio(v: &Option<RadioConfiguration>) -> (r: Option<RadioConfiguration>)
    ensures
        r == *v,
{
    match v {
        Some(i) => Some(i.copied()),
        None => None,
    }
}

impl ApplicationSnapshot {
    pub fn copied(&self) -> (r: ApplicationSnapshot)
        ensures
            r@ == self@,
    {
        ApplicationSnapshot {
            revision: self.revision,
            observed_status_at: self.observed_status_at,
            candidates: copy_candidates(&self.candidates),
            selected_candidate_id: crate::text::copy_optional_text(&self.selected_candidate_id),
            verified_puppis: copy_optional_identity(&self.verified_puppis),
            mutations_qualified: self.mutations_qualified,
            host_sharing: copy_optional_host(&self.host_sharing),
            radios: copy_radios(&self.radios),
            recovery_required: self.recovery_required,
            device_role: self.device_role,
            client_evidence: copy_evidence(&self.client_evidence),
            saved_clients: copy_saved_clients(&self.saved_clients),
            saved_clients_available: self.saved_clients_available,
            saved_clients_failure: copy_optional_failure(&self.saved_clients_failure),
            usb: self.usb.copied(),
            sharing: self.sharing.copied(),
            protocol: self.protocol.copied(),
            configuration: self.configuration.copied(),
            clients: self.clients.copied(),
            active_operation: crate::text::copy_optional_text(&self.active_operation),
            last_failure: copy_optional_failure(&self.last_failure),
        }
    }
}

/// The snapshot of a freshly started application.
pub open spec fn is_initial_snapshot(s: ApplicationSnapshotView) -> bool {
    &&& is_fresh_snapshot(s)
    &&& !s.recovery_required
    &&& s.saved_clients.len() == 0
    &&& s.saved_clients_available
    &&& s.saved_clients_failure is None
    &&& status_is(s.configuration, StatusLevel::Unavailable, "Device configuration unavailable")
}

/// A snapshot that has seen no candidate, device, host state, client or
/// failure yet (saved clients, recovery and configuration aside).
pub open spec fn is_fresh_snapshot(s: ApplicationSnapshotView) -> bool {
    &&& s.revision == 1
    &&& s.observed_status_at is None
    &&& s.candidates.len() == 0
    &&& s.selected_candidate_id is None
    &&& s.verified_puppis is None
    &&& !s.mutations_qualified
    &&& s.host_sharing is None
    &&& s.radios.len() == 0
    &&& s.device_role is None
    &&& s.client_evidence.len() == 0
    &&& status_is(s.usb, StatusLevel::Unavailable, "No Puppis candidate detected")
    &&& status_is(s.sharing, StatusLevel::Unavailable, "Host sharing not inspected")
    &&& status_is(s.protocol, StatusLevel::Unavailable, "No verified Puppis")
    &&& status_is(s.clients, StatusLevel::Unavailable, "Client evidence unavailable")
    &&& s.active_operation is None
    &&& s.last_failure is None
}

impl Default for ApplicationSnapshot {
    fn default() -> (s: ApplicationSnapshot)
        ensures
            is_initial_snapshot(s@),
    {
        ApplicationSnapshot {
            revision: 1,
            observed_status_at: None,
            candidates: Vec::new(),
            selected_candidate_id: None,
            verified_puppis: None,
            mutations_qualified: false,
            host_sharing: None,
            radios: Vec::new(),
            recovery_required: false,
            device_role: None,
            client_evidence: Vec::new(),
            saved_clients: Vec::new(),
            saved_clients_available: true,
            saved_clients_failure: None,
            usb: StatusDimension::unavailable("No Puppis candidate detected"),
            sharing: StatusDimension::unavailable("Host sharing not inspected"),
            protocol: StatusDimension::unavailable("No verified Puppis"),
            configuration: StatusDimension::unavailable("Device configuration unavailable"),
            clients: StatusDimension::unavailable("Client evidence unavailable"),
            active_operation: None,
            last_failure: None,
        }
    }
}

} // verus!
