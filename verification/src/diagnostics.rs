//! The diagnostics preview: the support evidence of a snapshot with every
//! identifier replaced by an alias. Candidates are numbered instead of named,
//! client evidence keeps its alias, addresses, kind and whether it is saved,
//! and radios keep no network name. Saved labels, hardware addresses,
//! interface names, candidate identifiers and radio secrets have no field here.

use vstd::prelude::*;
use crate::model::{
    texts, ApplicationSnapshot, ApplicationSnapshotView, AuthorizationState, ClientEvidenceKind,
    ClientEvidenceView, DeviceRole, OperationFailure, ProfileKind, PuppisCandidate, RadioBand,
    RadioSnapshotView, StatusDimension, UsbLinkSpeed,
};
use crate::failures::failure_is;
use crate::text::{copy_optional_text, copy_texts, decimal, decimal_text, text};

verus! {

/// The schema version of the preview.
pub const DIAGNOSTICS_SCHEMA_VERSION: u64 = 1;
/// The application that produced the preview.
pub const APPLICATION_NAME: &'static str = "Puppis S1 Manager for Linux";
/// The version of the application.
pub const APPLICATION_VERSION: &'static str = "1.0.0";
/// The file name offered for an exported preview.
pub const SUGGESTED_FILE_NAME: &'static str = "puppis-s1-diagnostics.json";

/// The application that produced the preview.
#[derive(Debug, Clone, PartialEq, Eq)]
pub struct ApplicationInfo {
    pub name: String,
    pub version: String,
}

/// The five status dimensions.
#[derive(Debug, Clone, PartialEq, Eq)]
pub struct StatusDiagnostics {
    pub usb: StatusDimension,
    pub sharing: StatusDimension,
    pub protocol: StatusDimension,
    pub configuration: StatusDimension,
    pub clients: StatusDimension,
}

/// A candidate, by alias.
#[derive(Debug, Clone, PartialEq, Eq)]
pub struct CandidateDiagnostics {
    pub alias: String,
    pub usb_link_speed: UsbLinkSpeed,
}

/// The verified identity.
#[derive(Debug, Clone, PartialEq, Eq)]
pub struct VerifiedDiagnostics {
    pub model: String,
    pub firmware: String,
    pub role: String,
    pub mutations_qualified: bool,
}

/// The host sharing state, without profile names or route descriptions.
#[derive(Debug, Clone, PartialEq, Eq)]
pub struct SharingDiagnostics {
    pub upstream_available: bool,
    pub profile_kind: ProfileKind,
    pub active: bool,
    pub ipv4_shared: bool,
    pub downstream_address: Option<String>,
    pub ipv6_disabled: bool,
    pub autoconnect: bool,
    pub subnet_conflict: bool,
    pub authorization: AuthorizationState,
}

/// A radio, without its network name.
#[derive(Debug, Clone, PartialEq, Eq)]
pub struct RadioDiagnostics {
    pub band: RadioBand,
    pub channel: String,
    pub country: String,
    pub enabled: bool,
    pub bandwidth: String,
    pub ssid_mutation: bool,
    pub password_mutation: bool,
    pub qualified_channels: Vec<String>,
    pub password_capability_reason: Option<String>,
}

/// A client, by alias.
#[derive(Debug, Clone, PartialEq, Eq)]
pub struct EvidenceDiagnostics {
    pub alias: String,
    pub addresses: Vec<String>,
    pub kind: ClientEvidenceKind,
    pub saved: bool,
}

/// The content of the diagnostics preview.
#[derive(Debug, Clone, PartialEq, Eq)]
pub struct Diagnostics {
    pub schema_version: u64,
    pub application: ApplicationInfo,
    pub state_revision: u64,
    pub status: StatusDiagnostics,
    pub candidates: Vec<CandidateDiagnostics>,
    pub verified_puppis: Option<VerifiedDiagnostics>,
    pub host_sharing: Option<SharingDiagnostics>,
    pub radios: Vec<RadioDiagnostics>,
    pub device_role: Option<DeviceRole>,
    pub recovery_required: bool,
    pub active_operation: Option<String>,
    pub last_failure: Option<OperationFailure>,
    pub client_evidence: Vec<EvidenceDiagnostics>,
}

/// A rendered preview and the file name offered for exporting it.
#[derive(Debug, Clone, PartialEq, Eq)]
pub struct DiagnosticsBundle {
    pub preview: String,
    pub suggested_name: String,
}

impl DiagnosticsBundle {
    /// The bundle of a rendered preview.
    pub fn new(preview: String) -> (r: DiagnosticsBundle)
        ensures
            r.preview == preview,
            r.suggested_name@ == SUGGESTED_FILE_NAME@,
    {
        DiagnosticsBundle { preview, suggested_name: text(SUGGESTED_FILE_NAME) }
    }
}

/// The alias of the candidate at index `i`.
pub open spec fn candidate_alias(i: nat) -> Seq<char> {
    "candidate-"@ + decimal(i + 1)
}

/// The diagnostics of the radio `r`.
pub open spec fn is_radio_diagnostics(d: RadioDiagnostics, r: RadioSnapshotView) -> bool {
    &&& d.band == r.band
    &&& d.channel@ == r.channel
    &&& d.country@ == r.country
    &&& d.enabled == r.enabled
    &&& d.bandwidth@ == r.bandwidth
    &&& d.ssid_mutation == r.ssid_mutation
    &&& d.password_mutation == r.password_mutation
    &&& texts(d.qualified_channels@) == r.qualified_channels
    &&& crate::model::optional_text(d.password_capability_reason) == r.password_unavailable_reason
}

/// The diagnostics of the client evidence `e`.
pub open spec fn is_evidence_diagnostics(d: EvidenceDiagnostics, e: ClientEvidenceView) -> bool {
    &&& d.alias@ == e.alias
    &&& texts(d.addresses@) == e.addresses
    &&& d.kind == e.kind
    &&& d.saved == e.saved
}

/// `d` is the diagnostics content of the snapshot `s`.
pub open spec fn is_diagnostics_of(d: Diagnostics, s: ApplicationSnapshotView) -> bool {
    &&& d.schema_version == DIAGNOSTICS_SCHEMA_VERSION
    &&& d.application.name@ == APPLICATION_NAME@
    &&& d.application.version@ == APPLICATION_VERSION@
    &&& d.state_revision == s.revision
    &&& d.status == (StatusDiagnostics { usb: s.usb, sharing: s.sharing, protocol: s.protocol, configuration: s.configuration, clients: s.clients })
    &&& d.candidates@.len() == s.candidates.len()
    &&& forall|i: int| 0 <= i < s.candidates.len() ==> {
        &&& (#[trigger] d.candidates@[i]).alias@ == candidate_alias(i as nat)
        &&& d.candidates@[i].usb_link_speed == s.candidates[i].link_speed
    }
    &&& match s.verified_puppis {
        None => d.verified_puppis is None,
        Some(i) => d.verified_puppis == Some(VerifiedDiagnostics {
            model: i.model,
            firmware: i.firmware,
            role: i.role_code,
            mutations_qualified: s.mutations_qualified,
        }),
    }
    &&& match s.host_sharing {
        None => d.host_sharing is None,
        Some(h) => d.host_sharing == Some(SharingDiagnostics {
            upstream_available: h.upstream_available,
            profile_kind: h.profile_kind,
            active: h.active,
            ipv4_shared: h.ipv4_shared,
            downstream_address: h.downstream_address,
            ipv6_disabled: h.ipv6_disabled,
            autoconnect: h.autoconnect,
            subnet_conflict: h.subnet_conflict,
            authorization: h.authorization,
        }),
    }
    &&& d.radios@.len() == s.radios.len()
    &&& forall|i: int| 0 <= i < s.radios.len() ==> is_radio_diagnostics(#[trigger] d.radios@[i], s.radios[i])
    &&& d.device_role == s.device_role
    &&& d.recovery_required == s.recovery_required
    &&& d.active_operation == s.active_operation
    &&& d.last_failure == s.last_failure
    &&& d.client_evidence@.len() == s.client_evidence.len()
    &&& forall|i: int| 0 <= i < s.client_evidence.len() ==> is_evidence_diagnostics(#[trigger] d.client_evidence@[i], s.client_evidence[i])
}

/// The diagnostics content of a snapshot.
pub fn diagnostics(snapshot: &ApplicationSnapshot) -> (d: Diagnostics)
    ensures
        is_diagnostics_of(d, snapshot@),
{
    let mut candidates: Vec<CandidateDiagnostics> = Vec::new();
    for i in 0..snapshot.candidates.len()
        invariant
            i <= usize::MAX,
            candidates@.len() == i,
            forall|j: int| 0 <= j < i ==> {
                &&& (#[trigger] candidates@[j]).alias@ == candidate_alias(j as nat)
                &&& candidates@[j].usb_link_speed == snapshot.candidates@[j].link_speed
            },
    {
        assert(usize::MAX <= u64::MAX);
        let number: u64 = (i as u64) + 1;
        let alias = text("candidate-").concat(decimal_text(number).as_str());
        candidates.push(CandidateDiagnostics { alias, usb_link_speed: snapshot.candidates[i].link_speed });
    }
    let verified_puppis = match &snapshot.verified_puppis {
        None => None,
        Some(i) => Some(VerifiedDiagnostics {
            model: i.model.clone(),
            firmware: i.firmware.clone(),
            role: i.role_code.clone(),
            mutations_qualified: snapshot.mutations_qualified,
        }),
    };
    let host_sharing = match &snapshot.host_sharing {
        None => None,
        Some(h) => Some(SharingDiagnostics {
            upstream_available: h.upstream_available,
            profile_kind: h.profile_kind,
            active: h.active,
            ipv4_shared: h.ipv4_shared,
            downstream_address: copy_optional_text(&h.downstream_address),
            ipv6_disabled: h.ipv6_disabled,
            autoconnect: h.autoconnect,
            subnet_conflict: h.subnet_conflict,
            authorization: h.authorization,
        }),
    };
    let mut radios: Vec<RadioDiagnostics> = Vec::new();
    for i in 0..snapshot.radios.len()
        invariant
            radios@.len() == i,
            forall|j: int| 0 <= j < i ==> is_radio_diagnostics(#[trigger] radios@[j], snapshot.radios@[j]@),
    {
        let r = &snapshot.radios[i];
        radios.push(RadioDiagnostics {
            band: r.band,
            channel: r.channel.clone(),
            country: r.country.clone(),
            enabled: r.enabled,
            bandwidth: r.bandwidth.clone(),
            ssid_mutation: r.ssid_mutation,
            password_mutation: r.password_mutation,
            qualified_channels: copy_texts(&r.qualified_channels),
            password_capability_reason: copy_optional_text(&r.password_unavailable_reason),
        });
    }
    let mut client_evidence: Vec<EvidenceDiagnostics> = Vec::new();
    for i in 0..snapshot.client_evidence.len()
        invariant
            client_evidence@.len() == i,
            forall|j: int| 0 <= j < i ==> is_evidence_diagnostics(#[trigger] client_evidence@[j], snapshot.client_evidence@[j]@),
    {
        let e = &snapshot.client_evidence[i];
        client_evidence.push(EvidenceDiagnostics {
            alias: e.alias.clone(),
            addresses: copy_texts(&e.addresses),
            kind: e.kind,
            saved: e.saved,
        });
    }
    let d = Diagnostics {
        schema_version: DIAGNOSTICS_SCHEMA_VERSION,
        application: ApplicationInfo { name: text(APPLICATION_NAME), version: text(APPLICATION_VERSION) },
        state_revision: snapshot.revision,
        status: StatusDiagnostics {
            usb: snapshot.usb.copied(),
            sharing: snapshot.sharing.copied(),
            protocol: snapshot.protocol.copied(),
            configuration: snapshot.configuration.copied(),
            clients: snapshot.clients.copied(),
        },
        candidates,
        verified_puppis,
        host_sharing,
        radios,
        device_role: snapshot.device_role,
        recovery_required: snapshot.recovery_required,
        active_operation: copy_optional_text(&snapshot.active_operation),
        last_failure: crate::model::copy_optional_failure(&snapshot.last_failure),
        client_evidence,
    };
    proof {
        assert forall|i: int| 0 <= i < snapshot@.radios.len() implies is_radio_diagnostics(#[trigger] d.radios@[i], snapshot@.radios[i]) by {
            assert(snapshot@.radios[i] == snapshot.radios@[i]@);
        }
        assert forall|i: int| 0 <= i < snapshot@.client_evidence.len() implies is_evidence_diagnostics(#[trigger] d.client_evidence@[i], snapshot@.client_evidence[i]) by {
            assert(snapshot@.client_evidence[i] == snapshot.client_evidence@[i]@);
        }
    }
    d
}

/// The two snapshots agree on all the support evidence that diagnostics
/// keep; they may differ in every identifier (candidate identifiers,
/// interface and display names, the selection, profile names, network names,
/// client names and hardware addresses, saved clients).
pub open spec fn same_support_evidence(a: ApplicationSnapshotView, b: ApplicationSnapshotView) -> bool {
    &&& a.revision == b.revision
    &&& a.usb == b.usb && a.sharing == b.sharing && a.protocol == b.protocol
    &&& a.configuration == b.configuration && a.clients == b.clients
    &&& a.candidates.len() == b.candidates.len()
    &&& forall|i: int| 0 <= i < a.candidates.len() ==> (#[trigger] a.candidates[i]).link_speed == b.candidates[i].link_speed
    &&& a.verified_puppis == b.verified_puppis
    &&& a.mutations_qualified == b.mutations_qualified
    &&& (a.host_sharing is None <==> b.host_sharing is None)
    &&& (a.host_sharing matches Some(h) ==> b.host_sharing matches Some(k) && {
        &&& h.upstream_available == k.upstream_available && h.profile_kind == k.profile_kind
        &&& h.active == k.active && h.ipv4_shared == k.ipv4_shared
        &&& h.downstream_address == k.downstream_address && h.ipv6_disabled == k.ipv6_disabled
        &&& h.autoconnect == k.autoconnect && h.subnet_conflict == k.subnet_conflict
        &&& h.authorization == k.authorization
    })
    &&& a.radios.len() == b.radios.len()
    &&& forall|i: int| 0 <= i < a.radios.len() ==> (#[trigger] a.radios[i]) == (RadioSnapshotView { ssid: a.radios[i].ssid, ..b.radios[i] })
    &&& a.device_role == b.device_role
    &&& a.recovery_required == b.recovery_required
    &&& a.active_operation == b.active_operation
    &&& a.last_failure == b.last_failure
    &&& a.client_evidence.len() == b.client_evidence.len()
    &&& forall|i: int| 0 <= i < a.client_evidence.len() ==> (#[trigger] a.client_evidence[i]) == (ClientEvidenceView {
        display_name: a.client_evidence[i].display_name,
        hardware_address: a.client_evidence[i].hardware_address,
        ..b.client_evidence[i]
    })
}

/// Diagnostics redact identifiers: two snapshots that differ only in
/// identifiers (names, hardware addresses, network names, candidate
/// identifiers, saved clients) have exactly the same diagnostics.
pub proof fn lemma_diagnostics_redact_identifiers(d: Diagnostics, a: ApplicationSnapshotView, b: ApplicationSnapshotView)
    requires
        same_support_evidence(a, b),
    ensures
        is_diagnostics_of(d, a) <==> is_diagnostics_of(d, b),
{
    if is_diagnostics_of(d, a) {
        assert forall|i: int| 0 <= i < b.radios.len() implies is_radio_diagnostics(#[trigger] d.radios@[i], b.radios[i]) by {
            assert(a.radios[i] == (RadioSnapshotView { ssid: a.radios[i].ssid, ..b.radios[i] }));
        }
        assert forall|i: int| 0 <= i < b.client_evidence.len() implies is_evidence_diagnostics(#[trigger] d.client_evidence@[i], b.client_evidence[i]) by {
            assert(a.client_evidence[i] == (ClientEvidenceView { display_name: a.client_evidence[i].display_name, hardware_address: a.client_evidence[i].hardware_address, ..b.client_evidence[i] }));
        }
        assert forall|i: int| 0 <= i < b.candidates.len() implies d.candidates@[i].usb_link_speed == b.candidates[i].link_speed by {
            assert(a.candidates[i].link_speed == b.candidates[i].link_speed);
        }
    }
    if is_diagnostics_of(d, b) {
        assert forall|i: int| 0 <= i < a.radios.len() implies is_radio_diagnostics(#[trigger] d.radios@[i], a.radios[i]) by {
            assert(a.radios[i] == (RadioSnapshotView { ssid: a.radios[i].ssid, ..b.radios[i] }));
        }
        assert forall|i: int| 0 <= i < a.client_evidence.len() implies is_evidence_diagnostics(#[trigger] d.client_evidence@[i], a.client_evidence[i]) by {
            assert(a.client_evidence[i] == (ClientEvidenceView { display_name: a.client_evidence[i].display_name, hardware_address: a.client_evidence[i].hardware_address, ..b.client_evidence[i] }));
        }
        assert forall|i: int| 0 <= i < a.candidates.len() implies d.candidates@[i].usb_link_speed == a.candidates[i].link_speed by {
            assert(a.candidates[i].link_speed == b.candidates[i].link_speed);
        }
    }
}


/// The failure for an export whose approved preview is no longer current.
pub open spec fn is_preview_stale(f: OperationFailure) -> bool {
    failure_is(f, "diagnostics_preview_stale", "The diagnostics preview changed before export.",
        "Review the refreshed preview before saving it.")
}

/// The failure for an export that could not be written.
pub open spec fn is_export_failed(f: OperationFailure) -> bool {
    failure_is(f, "diagnostics_export_failed", "The diagnostics bundle could not be saved.",
        "Choose a writable destination and try again.")
}

/// Only the preview that the user approved, and that is still current, may
/// be exported.
pub fn approve_export(current_preview: &String, approved_preview: &String) -> (r: Result<(), OperationFailure>)
    ensures
        current_preview@ == approved_preview@ ==> r is Ok,
        current_preview@ != approved_preview@ ==> (r matches Err(f) && is_preview_stale(f)),
{
    if *current_preview == *approved_preview {
        Ok(())
    } else {
        Err(OperationFailure::safe("diagnostics_preview_stale", "The diagnostics preview changed before export.",
            "Review the refreshed preview before saving it."))
    }
}

/// Reports an export that could not be written.
pub fn export_failed_failure() -> (f: OperationFailure)
    ensures
        is_export_failed(f),
{
    OperationFailure::safe("diagnostics_export_failed", "The diagnostics bundle could not be saved.",
        "Choose a writable destination and try again.")
}

} // verus!
