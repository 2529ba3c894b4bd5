//! The application state machine: every user operation reads or changes the
//! in-memory environment and publishes a new snapshot.

use vstd::prelude::*;
use crate::environment::{code_for_role, role_for_code, EnvironmentView, InMemoryEnvironment};
use crate::failures;
use crate::model::{
    is_fresh_snapshot, status_guided, status_is, ApplicationSnapshot, ApplicationSnapshotView,
    DeviceIdentity, DeviceRole, OperationFailure, PuppisCandidate, StatusDimension, StatusLevel,
    UsbLinkSpeed, QUALIFIED_FIRMWARE, copy_saved_clients, copy_optional_failure, saved_views,
};
use crate::sharing::{is_sharing_status, sharing_status};
use crate::text::{ascii_lowercase, is_text, text, trim, trimmed};
use crate::radio::{
    apply_operation_label, is_radio_snapshot_of, is_updated_configuration, is_valid_password,
    is_valid_ssid, password_valid, radio_snapshot, ssid_valid, updated_configuration,
};
use crate::environment::{counted, radio_of, radio_write_outcome, role_write_outcome};
use crate::evidence::{
    count_connected, client_status, evidence_for, group_client_observations, is_client_status,
    is_display_ordered, is_grouped_evidence, refresh_saved_observations, refreshed_saved_client,
    saved_client_changes, sort_client_evidence, count_kind, hardware_key,
};
use crate::saved::{
    find_saved, is_first_saved_index, is_label_ordered, is_label_taken, is_label_valid,
    is_saved_hardware, is_valid_label, label_taken, remove_saved, sort_saved_clients,
    without_hardware, SAVED_CLIENT_LIMIT,
};
use crate::environment::{SavedClientStorage, SystemAction};
use crate::model::{
    evidence_views, copy_evidence, ClientEvidence, ClientEvidenceKind, ClientEvidenceView,
    ClientNetworkObservation, SavedClient, SavedClientView,
};
use crate::model::{
    radio_configuration_equal, radio_views, texts, RadioBand, RadioConfiguration, RadioSnapshot,
    RadioSnapshotView, RadioUpdate,
};

verus! {

/// One more, unless the counter is already at its maximum.
pub open spec fn bumped(r: u64) -> u64 {
    if r < u64::MAX { (r + 1) as u64 } else { r }
}

/// Some listed candidate has this identifier.
pub open spec fn candidate_listed(candidates: Seq<PuppisCandidate>, id: Seq<char>) -> bool {
    exists|i: int| 0 <= i < candidates.len() && candidates[i].id@ == id
}

/// The first listed candidate with this identifier.
pub open spec fn candidate_with_id(candidates: Seq<PuppisCandidate>, id: Seq<char>) -> Option<PuppisCandidate>
    decreases candidates.len(),
{
    if candidates.len() == 0 {
        None
    } else if candidates[0].id@ == id {
        Some(candidates[0])
    } else {
        candidate_with_id(candidates.drop_first(), id)
    }
}

/// The selected candidate, when it is listed.
pub open spec fn selected_candidate(s: ApplicationSnapshotView) -> Option<PuppisCandidate> {
    match s.selected_candidate_id {
        Some(id) => candidate_with_id(s.candidates, id@),
        None => None,
    }
}

/// The USB and protocol statuses of a selected, not yet verified candidate.
pub open spec fn is_selected_candidate_status(s: ApplicationSnapshotView, c: PuppisCandidate) -> bool {
    &&& match c.link_speed {
        UsbLinkSpeed::SuperSpeed => status_is(s.usb, StatusLevel::Healthy, "SuperSpeed USB connection"),
        UsbLinkSpeed::Usb2 => status_guided(s.usb, StatusLevel::Attention, "USB 2 connection detected",
            "For best streaming performance, reconnect the Puppis through a SuperSpeed USB port."),
        UsbLinkSpeed::Unknown => status_is(s.usb, StatusLevel::Unknown, "USB link speed unavailable"),
    }
    &&& status_guided(s.protocol, StatusLevel::Unknown, "Candidate not yet verified",
        "Verify its P1411 identity before changing device settings.")
}

/// Everything learned about the previously selected device is forgotten.
pub open spec fn is_cleared_device_state(s: ApplicationSnapshotView) -> bool {
    &&& s.verified_puppis is None
    &&& !s.mutations_qualified
    &&& s.host_sharing is None
    &&& s.radios.len() == 0
    &&& s.device_role is None
    &&& s.client_evidence.len() == 0
    &&& status_is(s.sharing, StatusLevel::Unavailable, "Host sharing not inspected")
    &&& status_is(s.configuration, StatusLevel::Unavailable, "Device configuration unavailable")
    &&& status_is(s.clients, StatusLevel::Unavailable, "Client evidence unavailable")
    &&& s.active_operation is None
}

/// The two snapshots agree on everything but the fields that describe the
/// selected device and the USB and protocol statuses.
pub open spec fn same_apart_from_device(a: ApplicationSnapshotView, b: ApplicationSnapshotView) -> bool {
    a == ApplicationSnapshotView {
        verified_puppis: a.verified_puppis,
        mutations_qualified: a.mutations_qualified,
        host_sharing: a.host_sharing,
        radios: a.radios,
        device_role: a.device_role,
        client_evidence: a.client_evidence,
        sharing: a.sharing,
        configuration: a.configuration,
        clients: a.clients,
        active_operation: a.active_operation,
        usb: a.usb,
        protocol: a.protocol,
        ..b
    }
}

/// The configuration status while an interrupted transaction needs reconciliation.
pub open spec fn is_recovery_status_at_start(s: StatusDimension) -> bool {
    status_guided(s, StatusLevel::Attention, "Recovery required",
        "Reconcile the current device state before requesting another mutation.")
}

/// The application core: the published snapshot and the environment it drives.
pub struct Application {
    snapshot: ApplicationSnapshot,
    environment: InMemoryEnvironment,
}

impl Application {
    /// The published snapshot.
    pub closed spec fn state(&self) -> ApplicationSnapshotView {
        self.snapshot@
    }

    /// The environment.
    pub closed spec fn world(&self) -> EnvironmentView {
        self.environment@
    }

    fn bump(&mut self)
        ensures
            final(self).snapshot@ == (ApplicationSnapshotView { revision: bumped(old(self).snapshot.revision), ..old(self).snapshot@ }),
            final(self).environment == old(self).environment,
    {
        if self.snapshot.revision < u64::MAX {
            self.snapshot.revision = self.snapshot.revision + 1;
        }
    }

    /// Starts the application on an environment: saved clients and any
    /// recorded storage failure are published, and an interrupted earlier
    /// transaction demands recovery.
    pub fn new(environment: InMemoryEnvironment) -> (r: Application)
        ensures
            r.world() == environment@,
            is_fresh_snapshot(r.state()),
            r.state().saved_clients == environment@.saved_clients,
            r.state().saved_clients_failure == environment.saved_clients_failure,
            r.state().saved_clients_available == environment.saved_clients_failure is None,
            r.state().recovery_required == environment.interrupted,
            environment.interrupted ==> is_recovery_status_at_start(r.state().configuration),
            !environment.interrupted ==> status_is(r.state().configuration, StatusLevel::Unavailable, "Device configuration unavailable"),
    {
        let mut initial = ApplicationSnapshot::default();
        initial.saved_clients = copy_saved_clients(&environment.saved_clients);
        initial.saved_clients_failure = copy_optional_failure(&environment.saved_clients_failure);
        initial.saved_clients_available = environment.saved_clients_failure.is_none();
        if environment.interrupted {
            initial.recovery_required = true;
            initial.configuration = StatusDimension::guided(StatusLevel::Attention, "Recovery required",
                "Reconcile the current device state before requesting another mutation.");
        }
        Application { snapshot: initial, environment }
    }

    /// A copy of the published snapshot.
    pub fn snapshot(&self) -> (r: ApplicationSnapshot)
        ensures
            r@ == self.state(),
    {
        self.snapshot.copied()
    }

    /// The environment.
    pub fn environment(&self) -> (r: &InMemoryEnvironment)
        ensures
            r@ == self.world(),
    {
        &self.environment
    }

    /// Changes the environment (a device or host change outside the application).
    pub fn environment_mut(&mut self) -> (r: &mut InMemoryEnvironment)
        ensures
            r@ == old(self).world(),
            final(self).world() == final(r)@,
            final(self).state() == old(self).state(),
    {
        &mut self.environment
    }

    /// The window may close normally only when no operation is in progress.
    pub fn ordinary_close_allowed(&self) -> (r: bool)
        ensures
            r == (self.state().active_operation is None),
    {
        self.snapshot.active_operation.is_none()
    }

    /// Publishes a failure as the latest one.
    pub fn remember_failure(&mut self, failure: &OperationFailure)
        ensures
            final(self).state() == (ApplicationSnapshotView {
                revision: bumped(old(self).state().revision),
                last_failure: Some(*failure),
                ..old(self).state()
            }),
            final(self).world() == old(self).world(),
    {
        self.bump();
        self.snapshot.last_failure = Some(failure.copied());
    }
}

/// Whether a candidate with this identifier is listed.
fn is_candidate_listed(candidates: &Vec<PuppisCandidate>, id: &String) -> (r: bool)
    ensures
        r == candidate_listed(candidates@, id@),
{
    for i in 0..candidates.len()
        invariant
            forall|j: int| 0 <= j < i ==> candidates@[j].id@ != id@,
    {
        if candidates[i].id == *id {
            return true;
        }
    }
    false
}

/// The first listed candidate with this identifier.
fn find_candidate(candidates: &Vec<PuppisCandidate>, id: &String) -> (r: Option<PuppisCandidate>)
    ensures
        r == candidate_with_id(candidates@, id@),
{
    let mut i: usize = 0;
    assert(candidates@.skip(0) =~= candidates@);
    while i < candidates.len()
        invariant
            i <= candidates@.len(),
            candidate_with_id(candidates@, id@) == candidate_with_id(candidates@.skip(i as int), id@),
        decreases candidates@.len() - i,
    {
        assert(candidates@.skip(i as int)[0] == candidates@[i as int]);
        assert(candidates@.skip(i as int).drop_first() =~= candidates@.skip(i + 1 as int));
        if candidates[i].id == *id {
            return Some(candidates[i].copied());
        }
        i = i + 1;
    }
    None
}

proof fn lemma_candidate_with_id_listed(candidates: Seq<PuppisCandidate>, id: Seq<char>)
    ensures
        candidate_with_id(candidates, id) is Some <==> candidate_listed(candidates, id),
        candidate_with_id(candidates, id) matches Some(c) ==> c.id@ == id,
    decreases candidates.len(),
{
    if candidates.len() > 0 {
        lemma_candidate_with_id_listed(candidates.drop_first(), id);
        if candidate_listed(candidates, id) && candidates[0].id@ != id {
            let i = choose|i: int| 0 <= i < candidates.len() && candidates[i].id@ == id;
            assert(candidates.drop_first()[i - 1] == candidates[i]);
        }
        if candidate_listed(candidates.drop_first(), id) {
            let i = choose|i: int| 0 <= i < candidates.drop_first().len() && candidates.drop_first()[i].id@ == id;
            assert(candidates[i + 1] == candidates.drop_first()[i]);
        }
    }
}

impl Application {
    /// Sets the USB and protocol statuses for the selected candidate.
    fn apply_selected_candidate_status(&mut self)
        ensures
            final(self).environment == old(self).environment,
            match selected_candidate(old(self).state()) {
                Some(c) => {
                    &&& is_selected_candidate_status(final(self).state(), c)
                    &&& final(self).state() == (ApplicationSnapshotView { usb: final(self).state().usb, protocol: final(self).state().protocol, ..old(self).state() })
                },
                None => final(self).state() == old(self).state(),
            },
    {
        let candidate = match &self.snapshot.selected_candidate_id {
            Some(id) => find_candidate(&self.snapshot.candidates, id),
            None => None,
        };
        match candidate {
            Some(c) => {
                self.snapshot.usb = match c.link_speed {
                    UsbLinkSpeed::SuperSpeed => StatusDimension::plain(StatusLevel::Healthy, "SuperSpeed USB connection"),
                    UsbLinkSpeed::Usb2 => StatusDimension::guided(StatusLevel::Attention, "USB 2 connection detected",
                        "For best streaming performance, reconnect the Puppis through a SuperSpeed USB port."),
                    UsbLinkSpeed::Unknown => StatusDimension::plain(StatusLevel::Unknown, "USB link speed unavailable"),
                };
                self.snapshot.protocol = StatusDimension::guided(StatusLevel::Unknown, "Candidate not yet verified",
                    "Verify its P1411 identity before changing device settings.");
            },
            None => {},
        }
    }

    /// Forgets everything learned about the previously selected device.
    fn clear_selected_device_state(&mut self)
        ensures
            final(self).environment == old(self).environment,
            is_cleared_device_state(final(self).state()),
            same_apart_from_device(final(self).state(), old(self).state()),
            final(self).state().usb == old(self).state().usb,
            final(self).state().protocol == old(self).state().protocol,
    {
        self.snapshot.verified_puppis = None;
        self.snapshot.mutations_qualified = false;
        self.snapshot.host_sharing = None;
        self.snapshot.radios = Vec::new();
        self.snapshot.device_role = None;
        self.snapshot.client_evidence = Vec::new();
        self.snapshot.sharing = StatusDimension::unavailable("Host sharing not inspected");
        self.snapshot.configuration = StatusDimension::unavailable("Device configuration unavailable");
        self.snapshot.clients = StatusDimension::unavailable("Client evidence unavailable");
        self.snapshot.active_operation = None;
    }

    /// Lists the candidates that discovery finds now. A selection whose
    /// candidate disappeared is dropped together with everything learned
    /// about that device; a remaining selection keeps its state.
    pub fn refresh_candidates(&mut self) -> (r: Result<ApplicationSnapshot, OperationFailure>)
        ensures
            final(self).world() == old(self).world(),
            r matches Ok(s) && s@ == final(self).state(),
            is_refreshed_candidates(old(self).state(), old(self).world().candidates, final(self).state()),
    {
        let candidates = self.environment.discover_candidates();
        let previous = crate::text::copy_optional_text(&self.snapshot.selected_candidate_id);
        self.bump();
        self.snapshot.candidates = candidates;
        let ghost after_list = self.snapshot@;
        let dropped = match &self.snapshot.selected_candidate_id {
            Some(id) => !is_candidate_listed(&self.snapshot.candidates, id),
            None => false,
        };
        if dropped {
            self.snapshot.selected_candidate_id = None;
            self.snapshot.verified_puppis = None;
            self.snapshot.mutations_qualified = false;
            self.clear_selected_device_state();
        }
        let ghost after_drop = self.snapshot@;
        proof {
            if self.snapshot@.selected_candidate_id is Some {
                lemma_candidate_with_id_listed(self.snapshot@.candidates, self.snapshot@.selected_candidate_id->0@);
            }
        }
        if self.snapshot.candidates.len() == 0 {
            self.snapshot.selected_candidate_id = None;
            self.snapshot.usb = StatusDimension::unavailable("No Puppis candidate detected");
            self.snapshot.protocol = StatusDimension::unavailable("No verified Puppis");
        } else if self.snapshot.selected_candidate_id.is_none() {
            self.snapshot.usb = StatusDimension::guided(StatusLevel::Attention, "Select a Puppis candidate",
                "Choose the USB network adapter connected to the Puppis.");
            self.snapshot.protocol = StatusDimension::unavailable("No verified Puppis");
        } else {
            self.apply_selected_candidate_status();
        }
        Ok(self.snapshot.copied())
    }
}

/// What refreshing the candidate list does to the snapshot `o`, giving `n`.
pub open spec fn is_refreshed_candidates(o: ApplicationSnapshotView, candidates: Seq<PuppisCandidate>, n: ApplicationSnapshotView) -> bool {
    let dropped = o.selected_candidate_id matches Some(id) && !candidate_listed(candidates, id@);
    &&& n.revision == bumped(o.revision)
    &&& n.candidates == candidates
    &&& (if dropped {
        &&& n.selected_candidate_id is None
        &&& is_cleared_device_state(n)
    } else {
        &&& n.selected_candidate_id == o.selected_candidate_id
        &&& n.verified_puppis == o.verified_puppis
        &&& n.mutations_qualified == o.mutations_qualified
        &&& n.host_sharing == o.host_sharing
        &&& n.radios == o.radios
        &&& n.device_role == o.device_role
        &&& n.client_evidence == o.client_evidence
        &&& n.sharing == o.sharing
        &&& n.configuration == o.configuration
        &&& n.clients == o.clients
        &&& n.active_operation == o.active_operation
    })
    &&& (if candidates.len() == 0 {
        &&& status_is(n.usb, StatusLevel::Unavailable, "No Puppis candidate detected")
        &&& status_is(n.protocol, StatusLevel::Unavailable, "No verified Puppis")
    } else if n.selected_candidate_id is None {
        &&& status_guided(n.usb, StatusLevel::Attention, "Select a Puppis candidate",
            "Choose the USB network adapter connected to the Puppis.")
        &&& status_is(n.protocol, StatusLevel::Unavailable, "No verified Puppis")
    } else {
        is_selected_candidate_status(n, selected_candidate(n)->0)
    })
    &&& n == ApplicationSnapshotView {
        revision: n.revision,
        candidates: n.candidates,
        selected_candidate_id: n.selected_candidate_id,
        verified_puppis: n.verified_puppis,
        mutations_qualified: n.mutations_qualified,
        host_sharing: n.host_sharing,
        radios: n.radios,
        device_role: n.device_role,
        client_evidence: n.client_evidence,
        sharing: n.sharing,
        configuration: n.configuration,
        clients: n.clients,
        active_operation: n.active_operation,
        usb: n.usb,
        protocol: n.protocol,
        ..o
    }
}


/// The candidate that device operations address: the selected one, or the
/// only listed candidate while none is selected.
pub open spec fn operated_candidate(s: ApplicationSnapshotView) -> Option<PuppisCandidate> {
    match s.selected_candidate_id {
        Some(id) => candidate_with_id(s.candidates, id@),
        None => if s.candidates.len() == 1 { Some(s.candidates[0]) } else { None },
    }
}

/// The interface that device operations address, if any.
pub open spec fn selected_interface_of(s: ApplicationSnapshotView) -> Option<String> {
    match operated_candidate(s) {
        Some(c) => Some(c.interface_name),
        None => None,
    }
}

/// The failure that an operation on the selected interface reports when
/// there is no such interface.
pub open spec fn is_interface_failure(s: ApplicationSnapshotView, f: OperationFailure) -> bool {
    if s.selected_candidate_id is None {
        failures::is_interface_candidate_required(f)
    } else {
        failures::is_interface_candidate_missing(f)
    }
}

/// Selecting the listed candidate `id` in `o` gives `n`.
pub open spec fn is_selection_of(o: ApplicationSnapshotView, id: Seq<char>, n: ApplicationSnapshotView) -> bool {
    let changed = !(o.selected_candidate_id matches Some(x) && x@ == id);
    &&& n.revision == bumped(o.revision)
    &&& n.selected_candidate_id matches Some(x) && x@ == id
    &&& (changed ==> is_cleared_device_state(n))
    &&& is_selected_candidate_status(n, candidate_with_id(o.candidates, id)->0)
    &&& n == ApplicationSnapshotView {
        revision: n.revision,
        selected_candidate_id: n.selected_candidate_id,
        verified_puppis: if changed { n.verified_puppis } else { o.verified_puppis },
        mutations_qualified: if changed { n.mutations_qualified } else { o.mutations_qualified },
        host_sharing: if changed { n.host_sharing } else { o.host_sharing },
        radios: if changed { n.radios } else { o.radios },
        device_role: if changed { n.device_role } else { o.device_role },
        client_evidence: if changed { n.client_evidence } else { o.client_evidence },
        sharing: if changed { n.sharing } else { o.sharing },
        configuration: if changed { n.configuration } else { o.configuration },
        clients: if changed { n.clients } else { o.clients },
        active_operation: if changed { n.active_operation } else { o.active_operation },
        usb: n.usb,
        protocol: n.protocol,
        ..o
    }
}

/// The protocol and configuration statuses after verifying a P1411 whose
/// firmware is, or is not, qualified.
pub open spec fn is_verified_status(n: ApplicationSnapshotView, o: ApplicationSnapshotView, qualified: bool) -> bool {
    if qualified {
        &&& status_is(n.protocol, StatusLevel::Healthy, "Verified P1411")
        &&& n.configuration == o.configuration
    } else {
        &&& status_guided(n.protocol, StatusLevel::Attention, "Verified P1411 \u{b7} firmware not qualified",
            "Read-only diagnostics remain available; device mutations are disabled.")
        &&& status_guided(n.configuration, StatusLevel::Attention, "Read-only diagnostics available",
            "This exact firmware has not completed reversible mutation qualification.")
    }
}

/// Verifying `o` with the identity `i` of a P1411 gives `n`.
pub open spec fn is_verification_with(o: ApplicationSnapshotView, i: DeviceIdentity, n: ApplicationSnapshotView) -> bool {
    let qualified = i.firmware@ == QUALIFIED_FIRMWARE@;
    &&& is_verified_status(n, o, qualified)
    &&& n == ApplicationSnapshotView {
        revision: bumped(o.revision),
        mutations_qualified: qualified,
        protocol: n.protocol,
        configuration: n.configuration,
        verified_puppis: Some(i),
        device_role: role_for_code(i.role_code@),
        ..o
    }
}

/// Inspecting host sharing in `o` with the observation `h` gives `n`.
pub open spec fn is_inspection_with(o: ApplicationSnapshotView, h: crate::model::HostSharingObservation, n: ApplicationSnapshotView) -> bool {
    &&& is_sharing_status(n.sharing, h)
    &&& n == ApplicationSnapshotView {
        revision: bumped(o.revision),
        sharing: n.sharing,
        host_sharing: Some(h),
        ..o
    }
}

impl Application {
    /// Selects a listed candidate. Selecting another candidate than before
    /// forgets everything learned about the previous device.
    pub fn select_candidate(&mut self, candidate_id: &str) -> (r: Result<ApplicationSnapshot, OperationFailure>)
        ensures
            final(self).world() == old(self).world(),
            !candidate_listed(old(self).state().candidates, candidate_id@) ==> {
                &&& r matches Err(f) && failures::is_candidate_not_found(f)
                &&& final(self).state() == old(self).state()
            },
            candidate_listed(old(self).state().candidates, candidate_id@) ==> {
                &&& r matches Ok(s) && s@ == final(self).state()
                &&& is_selection_of(old(self).state(), candidate_id@, final(self).state())
            },
    {
        let id = text(candidate_id);
        if !is_candidate_listed(&self.snapshot.candidates, &id) {
            return Err(failures::candidate_not_found_failure());
        }
        proof { lemma_candidate_with_id_listed(self.snapshot@.candidates, id@); }
        self.bump();
        let changed = match &self.snapshot.selected_candidate_id {
            Some(current) => *current != id,
            None => true,
        };
        self.snapshot.selected_candidate_id = Some(id);
        if changed {
            self.clear_selected_device_state();
        }
        self.apply_selected_candidate_status();
        Ok(self.snapshot.copied())
    }

    /// The interface name of the candidate that device operations address.
    pub fn selected_interface(&self) -> (r: Result<String, OperationFailure>)
        ensures
            match selected_interface_of(self.state()) {
                Some(i) => r == Ok::<String, OperationFailure>(i),
                None => r matches Err(f) && is_interface_failure(self.state(), f),
            },
    {
        match &self.snapshot.selected_candidate_id {
            None => if self.snapshot.candidates.len() == 1 {
                Ok(self.snapshot.candidates[0].interface_name.clone())
            } else {
                Err(failures::interface_candidate_required_failure())
            },
            Some(id) => match find_candidate(&self.snapshot.candidates, id) {
                Some(c) => Ok(c.interface_name),
                None => Err(failures::interface_candidate_missing_failure()),
            },
        }
    }

    /// Reads the identity of the device over the protocol, once a candidate is
    /// selected (or is the only one listed). Only a P1411 is verified;
    /// mutations are qualified only on the exact qualified firmware.
    pub fn verify_selected_puppis(&mut self) -> (r: Result<ApplicationSnapshot, OperationFailure>)
        ensures
            old(self).state().selected_candidate_id is None && old(self).state().candidates.len() != 1 ==> {
                &&& r matches Err(f) && failures::is_verification_candidate_required(f)
                &&& final(self).state() == old(self).state()
                &&& final(self).world() == old(self).world()
            },
            old(self).state().selected_candidate_id is Some || old(self).state().candidates.len() == 1 ==>
                is_verification_outcome(old(self).state(), old(self).world(), final(self).state(), final(self).world(), r),
    {
        if self.snapshot.selected_candidate_id.is_none() && self.snapshot.candidates.len() != 1 {
            return Err(failures::verification_candidate_required_failure());
        }
        let identity = self.environment.read_identity()?;
        if !is_text(&identity.model, "P1411") {
            return Err(failures::identity_not_p1411_failure());
        }
        self.bump();
        let qualified = is_text(&identity.firmware, QUALIFIED_FIRMWARE);
        self.snapshot.mutations_qualified = qualified;
        if qualified {
            self.snapshot.protocol = StatusDimension::plain(StatusLevel::Healthy, "Verified P1411");
        } else {
            self.snapshot.protocol = StatusDimension::guided(StatusLevel::Attention, "Verified P1411 \u{b7} firmware not qualified",
                "Read-only diagnostics remain available; device mutations are disabled.");
            self.snapshot.configuration = StatusDimension::guided(StatusLevel::Attention, "Read-only diagnostics available",
                "This exact firmware has not completed reversible mutation qualification.");
        }
        self.snapshot.device_role = DeviceRole::from_code(&identity.role_code);
        self.snapshot.verified_puppis = Some(identity);
        Ok(self.snapshot.copied())
    }

    /// Inspects host sharing on the selected interface and explains it.
    pub fn inspect_host_sharing(&mut self) -> (r: Result<ApplicationSnapshot, OperationFailure>)
        ensures
            final(self).world() == old(self).world(),
            is_inspection_outcome(old(self).state(), old(self).world(), final(self).state(), r),
    {
        let interface_name = self.selected_interface()?;
        let observation = self.environment.inspect_host_sharing(&interface_name)?;
        self.bump();
        self.snapshot.sharing = sharing_status(&observation);
        self.snapshot.host_sharing = Some(observation);
        Ok(self.snapshot.copied())
    }
}

/// The outcome of reading the identity of the selected candidate in `o`
/// with environment `w`: `n`, `v` and the result `r`.
pub open spec fn is_verification_outcome(
    o: ApplicationSnapshotView,
    w: EnvironmentView,
    n: ApplicationSnapshotView,
    v: EnvironmentView,
    r: Result<ApplicationSnapshot, OperationFailure>,
) -> bool {
    if w.identity_failures_remaining > 0 {
        &&& r matches Err(f) && failures::is_identity_unreachable(f)
        &&& n == o
        &&& v == (EnvironmentView { identity_failures_remaining: (w.identity_failures_remaining - 1) as usize, ..w })
    } else {
        &&& v == w
        &&& match w.identity {
            None => (r matches Err(f) && failures::is_identity_unanswered(f)) && n == o,
            Some(i) => if i.model@ != "P1411"@ {
                (r matches Err(f) && failures::is_identity_not_p1411(f)) && n == o
            } else {
                (r matches Ok(s) && s@ == n) && is_verification_with(o, i, n)
            },
        }
    }
}

/// The outcome of inspecting host sharing in `o` with environment `w`.
pub open spec fn is_inspection_outcome(
    o: ApplicationSnapshotView,
    w: EnvironmentView,
    n: ApplicationSnapshotView,
    r: Result<ApplicationSnapshot, OperationFailure>,
) -> bool {
    match selected_interface_of(o) {
        None => (r matches Err(f) && is_interface_failure(o, f)) && n == o,
        Some(_) => match w.host_sharing {
            None => (r matches Err(f) && failures::is_network_state_unavailable(f)) && n == o,
            Some(h) => (r matches Ok(s) && s@ == n) && is_inspection_with(o, h, n),
        },
    }
}


/// What one identity read in environment `w` gives.
pub enum IdentityAttempt {
    /// A scripted unreachable read.
    Unreachable,
    /// No identity answered.
    Unanswered,
    /// Another model answered.
    NotP1411,
    /// A P1411 answered with this identity.
    Verified(DeviceIdentity),
}

pub open spec fn identity_attempt(w: EnvironmentView) -> IdentityAttempt {
    if w.identity_failures_remaining > 0 {
        IdentityAttempt::Unreachable
    } else {
        match w.identity {
            None => IdentityAttempt::Unanswered,
            Some(i) => if i.model@ != "P1411"@ { IdentityAttempt::NotP1411 } else { IdentityAttempt::Verified(i) },
        }
    }
}

/// The environment after one identity read.
pub open spec fn after_attempt(w: EnvironmentView) -> EnvironmentView {
    if w.identity_failures_remaining > 0 {
        EnvironmentView { identity_failures_remaining: (w.identity_failures_remaining - 1) as usize, ..w }
    } else {
        w
    }
}

/// The failure that a failed identity read reports.
pub open spec fn is_attempt_failure(a: IdentityAttempt, f: OperationFailure) -> bool {
    match a {
        IdentityAttempt::Unreachable => failures::is_identity_unreachable(f),
        IdentityAttempt::Unanswered => failures::is_identity_unanswered(f),
        IdentityAttempt::NotP1411 => failures::is_identity_not_p1411(f),
        IdentityAttempt::Verified(_) => false,
    }
}

/// The environment with these entries appended to its mutation history.
pub open spec fn with_log(w: EnvironmentView, entries: Seq<Seq<char>>, acts: Seq<SystemAction>) -> EnvironmentView {
    EnvironmentView { mutations: w.mutations + entries, actions: w.actions + acts, ..w }
}

/// The snapshot after an operation that only ran an active-operation
/// guard (two revisions), starting from `o` with `extra` more revisions.
pub open spec fn bumped_times(r: u64, times: nat) -> u64
    decreases times,
{
    if times == 0 { r } else { bumped(bumped_times(r, (times - 1) as nat)) }
}

/// The snapshot once an operation's active label is cleared.
pub open spec fn ended(s: ApplicationSnapshotView) -> ApplicationSnapshotView {
    ApplicationSnapshotView { revision: bumped(s.revision), active_operation: None, ..s }
}

/// The history entries of reconciling the owned profile on interface `i`
/// inside a checkpoint, when a temporary bootstrap is (or is not) active.
pub open spec fn reconcile_entries(i: Seq<char>, bootstrap: bool) -> Seq<Seq<char>> {
    if bootstrap {
        seq!["managed:reconcile:"@ + i, "bootstrap:remove:"@ + i, "checkpoint:commit:"@ + i]
    } else {
        seq!["managed:reconcile:"@ + i, "checkpoint:commit:"@ + i]
    }
}

/// The outside actions of reconciling the owned profile inside a checkpoint.
pub open spec fn reconcile_actions(bootstrap: bool) -> Seq<SystemAction> {
    if bootstrap {
        seq![SystemAction::ReconcileManaged, SystemAction::RemoveBootstrap, SystemAction::CommitCheckpoint]
    } else {
        seq![SystemAction::ReconcileManaged, SystemAction::CommitCheckpoint]
    }
}

/// Reconciling the owned profile inside an open checkpoint, from
/// environment `w` (host state `h`) to `v`, with result `res`: committed on
/// success, rolled back (after dropping any temporary bootstrap) when the
/// host denies authorization.
pub open spec fn is_reconcile_step(
    w: EnvironmentView,
    i: Seq<char>,
    h: crate::model::HostSharingObservation,
    v: EnvironmentView,
    res: Result<(), OperationFailure>,
) -> bool {
    if h.authorization == crate::model::AuthorizationState::Denied {
        &&& res matches Err(f) && failures::is_authorization_denied(f)
        &&& v == EnvironmentView { bootstrap_active: false, ..with_log(w, seq!["checkpoint:rollback:"@ + i], seq![SystemAction::RollbackCheckpoint]) }
    } else {
        &&& res is Ok
        &&& v.host_sharing matches Some(m) && crate::environment::is_managed_active(m, h)
        &&& v == EnvironmentView {
            host_sharing: v.host_sharing,
            bootstrap_active: false,
            ..with_log(w, reconcile_entries(i, w.bootstrap_active), reconcile_actions(w.bootstrap_active))
        }
    }
}

/// The core of enabling managed sharing on interface `i` with host state
/// `h`, from snapshot `s1` and environment `w` to `s2` and `v`: the
/// identity is verified first (through a checkpointed temporary bootstrap
/// when the device is unreachable), then the owned profile is reconciled
/// inside the checkpoint.
pub open spec fn is_enable_step(
    s1: ApplicationSnapshotView,
    w: EnvironmentView,
    i: Seq<char>,
    h: crate::model::HostSharingObservation,
    s2: ApplicationSnapshotView,
    v: EnvironmentView,
    res: Result<(), OperationFailure>,
) -> bool {
    let create = "checkpoint:create:"@ + i;
    if s1.verified_puppis is Some {
        s2 == s1 && is_reconcile_step(with_log(w, seq![create], seq![SystemAction::CreateCheckpoint]), i, h, v, res)
    } else {
        match identity_attempt(w) {
            IdentityAttempt::Verified(id) => is_verification_with(s1, id, s2)
                && is_reconcile_step(with_log(w, seq![create], seq![SystemAction::CreateCheckpoint]), i, h, v, res),
            IdentityAttempt::NotP1411 => (res matches Err(f) && failures::is_identity_not_p1411(f)) && v == w && s2 == s1,
            _ => {
                let w1 = after_attempt(w);
                let w2 = EnvironmentView { bootstrap_active: true, ..with_log(w1, seq![create, "bootstrap:temporary:"@ + i], seq![SystemAction::CreateCheckpoint, SystemAction::PrepareBootstrap]) };
                match identity_attempt(w1) {
                    IdentityAttempt::Verified(id) => is_verification_with(s1, id, s2) && is_reconcile_step(w2, i, h, v, res),
                    second => {
                        &&& res matches Err(f) && is_attempt_failure(second, f)
                        &&& v == EnvironmentView { bootstrap_active: false, ..with_log(after_attempt(w1), seq![create, "bootstrap:temporary:"@ + i, "checkpoint:rollback:"@ + i], seq![SystemAction::CreateCheckpoint, SystemAction::PrepareBootstrap, SystemAction::RollbackCheckpoint]) }
                        &&& s2 == s1
                    },
                }
            },
        }
    }
}

/// The outcome of enabling managed sharing: the core step runs inside an
/// active operation; on success host sharing is inspected again.
pub open spec fn is_enable_outcome(
    o: ApplicationSnapshotView,
    w: EnvironmentView,
    i: Seq<char>,
    h: crate::model::HostSharingObservation,
    n: ApplicationSnapshotView,
    v: EnvironmentView,
    r: Result<ApplicationSnapshot, OperationFailure>,
) -> bool {
    exists|s1: ApplicationSnapshotView, s2: ApplicationSnapshotView, res: Result<(), OperationFailure>| {
        &&& s1 == ApplicationSnapshotView { revision: bumped(o.revision), active_operation: s1.active_operation, ..o }
        &&& #[trigger] is_enable_step(s1, w, i, h, s2, v, res)
        &&& match res {
            Ok(_) => (r matches Ok(x) && x@ == n) && is_inspection_with(ended(s2), v.host_sharing->0, n),
            Err(f) => r == Err::<ApplicationSnapshot, OperationFailure>(f) && n == ended(s2),
        }
    }
}

impl Application {
    fn begin_operation(&mut self, label: &str)
        ensures
            final(self).environment == old(self).environment,
            final(self).state() == (ApplicationSnapshotView {
                revision: bumped(old(self).state().revision),
                active_operation: final(self).state().active_operation,
                ..old(self).state()
            }),
            final(self).state().active_operation matches Some(a) && a@ == label@,
    {
        self.bump();
        self.snapshot.active_operation = Some(text(label));
    }

    fn end_operation(&mut self)
        ensures
            final(self).environment == old(self).environment,
            final(self).state() == (ApplicationSnapshotView {
                revision: bumped(old(self).state().revision),
                active_operation: None,
                ..old(self).state()
            }),
    {
        self.bump();
        self.snapshot.active_operation = None;
    }

    /// Reconciles the owned profile inside the open checkpoint: commits on
    /// success, otherwise removes the temporary bootstrap and rolls back.
    fn reconcile_in_checkpoint(&mut self, interface_name: &String) -> (r: Result<(), OperationFailure>)
        requires
            old(self).environment.host_sharing is Some,
        ensures
            final(self).snapshot == old(self).snapshot,
            is_reconcile_step(old(self).world(), interface_name@, old(self).environment.host_sharing->0, final(self).world(), r),
    {
        let ghost w0 = self.environment@;
        match self.environment.reconcile_managed(interface_name) {
            Ok(()) => {
                let _ = self.environment.finish_bootstrap(interface_name, true);
                let _ = self.environment.finish_checkpoint(interface_name, true);
                assert(self.environment@.mutations =~= w0.mutations + reconcile_entries(interface_name@, w0.bootstrap_active));
                assert(self.environment@.actions =~= w0.actions + reconcile_actions(w0.bootstrap_active));
                Ok(())
            },
            Err(e) => {
                let _ = self.environment.finish_bootstrap(interface_name, false);
                let _ = self.environment.finish_checkpoint(interface_name, false);
                assert(self.environment@.mutations =~= w0.mutations + seq!["checkpoint:rollback:"@ + interface_name@]);
                assert(self.environment@.actions =~= w0.actions + seq![SystemAction::RollbackCheckpoint]);
                Err(e)
            },
        }
    }

    /// Verifies the identity (through a temporary bootstrap when the device
    /// is unreachable) and reconciles the owned profile inside a checkpoint.
    fn enable_within_operation(&mut self, interface_name: &String) -> (r: Result<(), OperationFailure>)
        requires
            old(self).environment.host_sharing is Some,
            old(self).state().selected_candidate_id is Some || old(self).state().candidates.len() == 1,
        ensures
            is_enable_step(old(self).state(), old(self).world(), interface_name@, old(self).environment.host_sharing->0,
                final(self).state(), final(self).world(), r),
    {
        let ghost w = self.environment@;
        let ghost i = interface_name@;
        if self.snapshot.verified_puppis.is_some() {
            let _ = self.environment.checkpoint(interface_name);
            assert(self.environment@.mutations =~= w.mutations + seq!["checkpoint:create:"@ + i]);
            assert(self.environment@.actions =~= w.actions + seq![SystemAction::CreateCheckpoint]);
            assert(self.environment@ == with_log(w, seq!["checkpoint:create:"@ + i], seq![SystemAction::CreateCheckpoint]));
            return self.reconcile_in_checkpoint(interface_name);
        }
        match self.verify_selected_puppis() {
            Ok(_) => {
                let _ = self.environment.checkpoint(interface_name);
                assert(self.environment@.mutations =~= w.mutations + seq!["checkpoint:create:"@ + i]);
            assert(self.environment@.actions =~= w.actions + seq![SystemAction::CreateCheckpoint]);
            assert(self.environment@ == with_log(w, seq!["checkpoint:create:"@ + i], seq![SystemAction::CreateCheckpoint]));
                self.reconcile_in_checkpoint(interface_name)
            },
            Err(first) => {
                if !is_text(&first.code, "protocol_unreachable") {
                    assert(identity_attempt(w) is NotP1411);
                    return Err(first);
                }
                proof {
                    reveal_strlit("identity_not_p1411");
                    reveal_strlit("protocol_unreachable");
                }
                assert(first.code@ == "protocol_unreachable"@);
                assert("identity_not_p1411"@.len() == 18);
                assert("protocol_unreachable"@.len() == 20);
                assert("identity_not_p1411"@ != "protocol_unreachable"@);
                assert(identity_attempt(w) is NotP1411 ==> first.code@ == "identity_not_p1411"@);
                assert(!(identity_attempt(w) is NotP1411));
                let ghost w1 = self.environment@;
                let _ = self.environment.checkpoint(interface_name);
                let _ = self.environment.prepare_bootstrap(interface_name);
                assert(self.environment@.mutations =~= w1.mutations + seq!["checkpoint:create:"@ + i, "bootstrap:temporary:"@ + i]);
                assert(self.environment@.actions =~= w1.actions + seq![SystemAction::CreateCheckpoint, SystemAction::PrepareBootstrap]);
                assert(self.environment@ == (EnvironmentView { bootstrap_active: true, ..with_log(w1, seq!["checkpoint:create:"@ + i, "bootstrap:temporary:"@ + i], seq![SystemAction::CreateCheckpoint, SystemAction::PrepareBootstrap]) }));
                match self.verify_selected_puppis() {
                    Ok(_) => self.reconcile_in_checkpoint(interface_name),
                    Err(second) => {
                        let _ = self.environment.finish_bootstrap(interface_name, false);
                        let _ = self.environment.finish_checkpoint(interface_name, false);
                        assert(self.environment@.mutations =~= w1.mutations + seq!["checkpoint:create:"@ + i, "bootstrap:temporary:"@ + i, "checkpoint:rollback:"@ + i]);
                        assert(self.environment@.actions =~= w1.actions + seq![SystemAction::CreateCheckpoint, SystemAction::PrepareBootstrap, SystemAction::RollbackCheckpoint]);
                        assert(identity_attempt(w1) == identity_attempt(EnvironmentView { bootstrap_active: true, ..with_log(w1, seq!["checkpoint:create:"@ + i, "bootstrap:temporary:"@ + i], seq![SystemAction::CreateCheckpoint, SystemAction::PrepareBootstrap]) }));
                        assert(self.environment@ == (EnvironmentView { bootstrap_active: false, ..with_log(after_attempt(w1), seq!["checkpoint:create:"@ + i, "bootstrap:temporary:"@ + i, "checkpoint:rollback:"@ + i], seq![SystemAction::CreateCheckpoint, SystemAction::PrepareBootstrap, SystemAction::RollbackCheckpoint]) }));
                        Err(second)
                    },
                }
            },
        }
    }

    /// Enables the application-owned sharing profile on the selected
    /// interface, inside a host network checkpoint.
    pub fn enable_managed_sharing(&mut self) -> (r: Result<ApplicationSnapshot, OperationFailure>)
        ensures
            is_enable_sharing_outcome(old(self).state(), old(self).world(), final(self).state(), final(self).world(), r),
    {
        let interface_name = self.selected_interface()?;
        let observed = self.environment.inspect_host_sharing(&interface_name)?;
        if observed.subnet_conflict {
            return Err(failures::subnet_conflict_failure());
        }
        if !observed.upstream_available {
            return Err(failures::upstream_unavailable_failure());
        }
        let ghost o = self.snapshot@;
        let ghost w = self.environment@;
        self.begin_operation("Enable managed host sharing");
        let ghost s1 = self.snapshot@;
        let result = self.enable_within_operation(&interface_name);
        let ghost s2 = self.snapshot@;
        let ghost v = self.environment@;
        self.end_operation();
        match result {
            Ok(()) => {
                let r = self.inspect_host_sharing();
                proof {
                    assert(selected_interface_of(self.snapshot@) == selected_interface_of(o)) by {
                        assert(s2.candidates == o.candidates);
                        assert(s2.selected_candidate_id == o.selected_candidate_id);
                    }
                    assert(is_enable_step(s1, w, interface_name@, observed, s2, v, result));
                }
                r
            },
            Err(e) => {
                proof {
                    assert(is_enable_step(s1, w, interface_name@, observed, s2, v, result));
                }
                Err(e)
            },
        }
    }
}


/// The index of the first radio snapshot of a band.
pub open spec fn is_first_radio_index(rs: Seq<RadioSnapshotView>, band: RadioBand, k: int) -> bool {
    &&& 0 <= k < rs.len()
    &&& rs[k].band == band
    &&& forall|j: int| 0 <= j < k ==> rs[j].band != band
}

/// The first radio snapshot of a band, if there is one.
pub open spec fn radio_snapshot_of(rs: Seq<RadioSnapshotView>, band: RadioBand) -> Option<RadioSnapshotView> {
    if exists|k: int| is_first_radio_index(rs, band, k) {
        Some(rs[choose|k: int| is_first_radio_index(rs, band, k)])
    } else {
        None
    }
}

/// The radio snapshots with the first snapshot of `band` showing the
/// non-secret settings of `c` (capabilities unchanged).
pub open spec fn radios_refreshed(rs: Seq<RadioSnapshotView>, band: RadioBand, c: RadioConfiguration) -> Seq<RadioSnapshotView> {
    if exists|k: int| is_first_radio_index(rs, band, k) {
        let k = choose|k: int| is_first_radio_index(rs, band, k);
        rs.update(k, RadioSnapshotView {
            ssid: c.ssid@,
            channel: c.channel@,
            country: c.country@,
            enabled: c.enabled@ == "1"@,
            bandwidth: c.bandwidth@,
            ..rs[k]
        })
    } else {
        rs
    }
}

proof fn lemma_first_radio_index_unique(rs: Seq<RadioSnapshotView>, band: RadioBand, a: int, b: int)
    requires
        is_first_radio_index(rs, band, a),
        is_first_radio_index(rs, band, b),
    ensures
        a == b,
{
}

/// The configuration status of radio settings read on qualified or
/// unqualified firmware `firmware`.
pub open spec fn is_radio_read_status(s: StatusDimension, qualified: bool, firmware: Seq<char>) -> bool {
    if qualified {
        status_is(s, StatusLevel::Healthy, "Qualified radio settings available")
    } else {
        &&& s.level == StatusLevel::Attention
        &&& s.summary@ == "Radio settings available read-only"@
        &&& s.guidance matches Some(g) && g@ == "Firmware "@ + firmware + " is not in the exact mutation allowlist."@
    }
}

impl Application {
    /// The index of the first radio snapshot of a band.
    fn find_radio(&self, band: RadioBand) -> (r: Option<usize>)
        ensures
            match r {
                Some(k) => is_first_radio_index(self.state().radios, band, k as int),
                None => !exists|k: int| is_first_radio_index(self.state().radios, band, k),
            },
    {
        for i in 0..self.snapshot.radios.len()
            invariant
                forall|j: int| 0 <= j < i ==> radio_views(self.snapshot.radios@)[j].band != band,
        {
            if self.snapshot.radios[i].band == band {
                return Some(i);
            }
        }
        None
    }

    /// Shows the non-secret settings of `c` in the first snapshot of `band`.
    fn refresh_radio_snapshot(&mut self, band: RadioBand, c: &RadioConfiguration)
        ensures
            final(self).environment == old(self).environment,
            final(self).state() == (ApplicationSnapshotView {
                radios: radios_refreshed(old(self).state().radios, band, *c),
                ..old(self).state()
            }),
    {
        match self.find_radio(band) {
            Some(k) => {
                let ghost before = self.snapshot@;
                let mut radio = self.snapshot.radios[k].copied();
                radio.ssid = c.ssid.clone();
                radio.channel = c.channel.clone();
                radio.country = c.country.clone();
                radio.enabled = is_text(&c.enabled, "1");
                radio.bandwidth = c.bandwidth.clone();
                self.snapshot.radios.set(k, radio);
                proof {
                    let chosen = choose|j: int| is_first_radio_index(before.radios, band, j);
                    lemma_first_radio_index_unique(before.radios, band, chosen, k as int);
                    assert(radio_views(self.snapshot.radios@) =~= radios_refreshed(before.radios, band, *c));
                }
            },
            None => {},
        }
    }

    /// Reads both radios of a verified P1411 and publishes their non-secret
    /// settings and the changes qualified for them.
    pub fn read_radio_settings(&mut self) -> (r: Result<ApplicationSnapshot, OperationFailure>)
        ensures
            is_radio_read_outcome(old(self).state(), old(self).world(), final(self).state(), final(self).world(), r),
    {
        let (firmware, qualified) = match &self.snapshot.verified_puppis {
            Some(identity) => (identity.firmware.clone(), self.snapshot.mutations_qualified),
            None => return Err(failures::radio_read_requires_verification_failure()),
        };
        let five = self.environment.read_radio(RadioBand::FiveGhz)?;
        let two = self.environment.read_radio(RadioBand::TwoPointFourGhz)?;
        self.bump();
        let mut radios: Vec<RadioSnapshot> = Vec::new();
        radios.push(radio_snapshot(RadioBand::FiveGhz, &five, qualified));
        radios.push(radio_snapshot(RadioBand::TwoPointFourGhz, &two, qualified));
        self.snapshot.radios = radios;
        self.snapshot.configuration = if qualified {
            StatusDimension::plain(StatusLevel::Healthy, "Qualified radio settings available")
        } else {
            StatusDimension {
                level: StatusLevel::Attention,
                summary: text("Radio settings available read-only"),
                guidance: Some(text("Firmware ").concat(firmware.as_str()).concat(" is not in the exact mutation allowlist.")),
            }
        };
        Ok(self.snapshot.copied())
    }
}

/// The outcome of reading both radios from snapshot `o` and environment `w`.
pub open spec fn is_radio_read_outcome(
    o: ApplicationSnapshotView,
    w: EnvironmentView,
    n: ApplicationSnapshotView,
    v: EnvironmentView,
    r: Result<ApplicationSnapshot, OperationFailure>,
) -> bool {
    let once = EnvironmentView { configuration_read_count: counted(w.configuration_read_count), ..w };
    let twice = EnvironmentView { configuration_read_count: counted(counted(w.configuration_read_count)), ..w };
    match o.verified_puppis {
        None => (r matches Err(f) && failures::is_radio_read_requires_verification(f)) && n == o && v == w,
        Some(identity) => match (w.five_ghz, w.two_point_four_ghz) {
            (None, _) => (r matches Err(f) && failures::is_radio_read_unavailable(f)) && n == o && v == once,
            (Some(_), None) => (r matches Err(f) && failures::is_radio_read_unavailable(f)) && n == o && v == twice,
            (Some(five), Some(two)) => {
                &&& r matches Ok(s) && s@ == n
                &&& v == twice
                &&& n.radios.len() == 2
                &&& is_radio_snapshot_of(n.radios[0], RadioBand::FiveGhz, five, o.mutations_qualified)
                &&& is_radio_snapshot_of(n.radios[1], RadioBand::TwoPointFourGhz, two, o.mutations_qualified)
                &&& is_radio_read_status(n.configuration, o.mutations_qualified, identity.firmware@)
                &&& n == ApplicationSnapshotView {
                    revision: bumped(o.revision),
                    radios: n.radios,
                    configuration: n.configuration,
                    ..o
                }
            },
        },
    }
}


/// The environment after one more configuration read.
pub open spec fn read_once(w: EnvironmentView) -> EnvironmentView {
    EnvironmentView { configuration_read_count: counted(w.configuration_read_count), ..w }
}

/// The environment with the interrupted-transaction marker set or cleared.
pub open spec fn marked(w: EnvironmentView, present: bool) -> EnvironmentView {
    EnvironmentView { interrupted: present, actions: w.actions.push(SystemAction::SetMarker(present)), ..w }
}

/// The configuration status while a settings transaction runs.
pub open spec fn is_in_progress_status(s: StatusDimension) -> bool {
    status_is(s, StatusLevel::Attention, "Settings transaction in progress")
}

/// The configuration status when a transaction could be neither verified
/// nor restored.
pub open spec fn is_radio_recovery_status(s: StatusDimension) -> bool {
    status_guided(s, StatusLevel::Attention, "Recovery required",
        "The device state could not be verified or restored. Reconcile it before any further mutation.")
}

/// The stored settings of the band equal `c` in every text.
pub open spec fn stores(w: EnvironmentView, band: RadioBand, c: RadioConfiguration) -> bool {
    radio_of(w, band) matches Some(x) && radio_configuration_equal(x, c)
}

/// A radio settings transaction on `band` from snapshot `o`, starting in
/// environment `w1` (after reading `original`), that writes `d`: the
/// interrupted-transaction marker is set, `d` is written and read back;
/// a verified read-back succeeds; an unchanged read-back reports that
/// nothing was applied; otherwise `original` is written back and read: a
/// verified restoration reports the rollback, anything else leaves the
/// marker set and demands recovery.
pub open spec fn is_radio_transaction(
    o: ApplicationSnapshotView,
    w1: EnvironmentView,
    band: RadioBand,
    original: RadioConfiguration,
    d: RadioConfiguration,
    n: ApplicationSnapshotView,
    v: EnvironmentView,
    r: Result<ApplicationSnapshot, OperationFailure>,
) -> bool {
    exists|w3: EnvironmentView, wr: Result<(), OperationFailure>| {
        &&& #[trigger] radio_write_outcome(marked(w1, true), band, d, w3, wr)
        &&& is_radio_write_settled(o, band, original, d, n, v, r, w3, wr)
    }
}

/// How a radio transaction from snapshot `o` ends once the write of `d`
/// left environment `w3` with result `wr` (see `is_radio_transaction`).
pub open spec fn is_radio_write_settled(
    o: ApplicationSnapshotView,
    band: RadioBand,
    original: RadioConfiguration,
    d: RadioConfiguration,
    n: ApplicationSnapshotView,
    v: EnvironmentView,
    r: Result<ApplicationSnapshot, OperationFailure>,
    w3: EnvironmentView,
    wr: Result<(), OperationFailure>,
) -> bool {
    if wr is Ok && stores(w3, band, d) {
        &&& r matches Ok(s) && s@ == n
        &&& v == marked(read_once(w3), false)
        &&& status_is(n.configuration, StatusLevel::Healthy, "Settings transaction verified")
        &&& n == ApplicationSnapshotView {
            revision: bumped_times(o.revision, 3),
            active_operation: None,
            radios: radios_refreshed(o.radios, band, d),
            configuration: n.configuration,
            ..o
        }
    } else if stores(w3, band, original) {
        &&& r matches Err(f) && failures::is_radio_not_applied(f)
        &&& v == marked(read_once(w3), false)
        &&& is_in_progress_status(n.configuration)
        &&& n == ApplicationSnapshotView {
            revision: bumped_times(o.revision, 2),
            active_operation: None,
            configuration: n.configuration,
            ..o
        }
    } else {
        exists|w5: EnvironmentView, rr: Result<(), OperationFailure>| {
            &&& #[trigger] radio_write_outcome(read_once(w3), band, original, w5, rr)
            &&& is_radio_restore_settled(o, band, original, n, v, r, w5, rr)
        }
    }
}

/// How a radio transaction from snapshot `o` ends once writing `original`
/// back left environment `w5` with result `rr`.
pub open spec fn is_radio_restore_settled(
    o: ApplicationSnapshotView,
    band: RadioBand,
    original: RadioConfiguration,
    n: ApplicationSnapshotView,
    v: EnvironmentView,
    r: Result<ApplicationSnapshot, OperationFailure>,
    w5: EnvironmentView,
    rr: Result<(), OperationFailure>,
) -> bool {
    if rr is Ok && stores(w5, band, original) {
        &&& r matches Err(f) && failures::is_radio_rolled_back(f)
        &&& v == marked(read_once(w5), false)
        &&& is_in_progress_status(n.configuration)
        &&& n == ApplicationSnapshotView {
            revision: bumped_times(o.revision, 2),
            active_operation: None,
            radios: radios_refreshed(o.radios, band, original),
            configuration: n.configuration,
            ..o
        }
    } else {
        &&& r matches Err(f) && failures::is_recovery(f)
        &&& v == (if rr is Ok { read_once(w5) } else { w5 })
        &&& v.interrupted
        &&& is_radio_recovery_status(n.configuration)
        &&& n == ApplicationSnapshotView {
            revision: bumped_times(o.revision, 2),
            active_operation: None,
            recovery_required: true,
            configuration: n.configuration,
            ..o
        }
    }
}

/// The outcome of a radio settings change `u` on `band` from snapshot `o`
/// and environment `w`: refused while recovery is required or on
/// unqualified firmware; nothing happens when the change is already in
/// place; otherwise a verified transaction runs.
pub open spec fn is_radio_change_outcome(
    o: ApplicationSnapshotView,
    w: EnvironmentView,
    band: RadioBand,
    u: RadioUpdate,
    n: ApplicationSnapshotView,
    v: EnvironmentView,
    r: Result<ApplicationSnapshot, OperationFailure>,
) -> bool {
    if o.recovery_required {
        (r matches Err(f) && failures::is_recovery(f)) && n == o && v == w
    } else if !o.mutations_qualified {
        (r matches Err(f) && failures::is_radio_not_qualified(f)) && n == o && v == w
    } else {
        match radio_of(w, band) {
            None => (r matches Err(f) && failures::is_radio_read_unavailable(f)) && n == o && v == read_once(w),
            Some(original) => exists|d: RadioConfiguration| {
                &&& #[trigger] is_updated_configuration(d, original, u)
                &&& if radio_configuration_equal(d, original) {
                    (r matches Ok(s) && s@ == n) && n == o && v == read_once(w)
                } else {
                    is_radio_transaction(o, read_once(w), band, original, d, n, v, r)
                }
            },
        }
    }
}

impl Application {
    /// Clears the interrupted-transaction marker and the active operation.
    fn clear_transaction_state(&mut self)
        ensures
            final(self).world() == marked(old(self).world(), false),
            final(self).state() == ended(old(self).state()),
    {
        self.environment.set_interrupted_marker(false);
        self.end_operation();
    }

    /// Runs a verified radio settings transaction (see `is_radio_change_outcome`).
    #[verifier::spinoff_prover]
    #[verifier::rlimit(40)]
    fn transact_radio(&mut self, band: RadioBand, operation: String, update: &RadioUpdate) -> (r: Result<ApplicationSnapshot, OperationFailure>)
        ensures
            is_radio_change_outcome(old(self).state(), old(self).world(), band, *update, final(self).state(), final(self).world(), r),
    {
        if self.snapshot.recovery_required {
            return Err(failures::recovery_failure());
        }
        if !self.snapshot.mutations_qualified {
            return Err(failures::radio_not_qualified_failure());
        }
        let original = self.environment.read_radio(band)?;
        let desired = updated_configuration(&original, update);
        if desired.same_as(&original) {
            assert(is_updated_configuration(desired, original, *update));
            return Ok(self.snapshot.copied());
        }
        let ghost o = self.snapshot@;
        let ghost w1 = self.environment@;
        self.environment.set_interrupted_marker(true);
        self.bump();
        self.snapshot.active_operation = Some(operation);
        self.snapshot.configuration = StatusDimension::plain(StatusLevel::Attention, "Settings transaction in progress");
        let write_result = self.environment.write_radio(band, &desired);
        let ghost w3 = self.environment@;
        let observed = self.environment.read_radio(band);
        let verified = match &observed {
            Ok(state) => write_result.is_ok() && state.same_as(&desired),
            Err(_) => false,
        };
        if verified {
            self.clear_transaction_state();
            self.refresh_radio_snapshot(band, &desired);
            self.bump();
            self.snapshot.configuration = StatusDimension::plain(StatusLevel::Healthy, "Settings transaction verified");
            let r = Ok(self.snapshot.copied());
            proof {
                reveal_with_fuel(bumped_times, 4);
                assert(radio_write_outcome(marked(w1, true), band, desired, w3, write_result));
                assert(is_radio_transaction(o, w1, band, original, desired, self.snapshot@, self.environment@, r));
                assert(is_updated_configuration(desired, original, *update));
            }
            return r;
        }
        let unchanged = match &observed {
            Ok(state) => state.same_as(&original),
            Err(_) => false,
        };
        if unchanged {
            self.clear_transaction_state();
            let r = Err(failures::radio_not_applied_failure());
            proof {
                reveal_with_fuel(bumped_times, 3);
                assert(radio_write_outcome(marked(w1, true), band, desired, w3, write_result));
                assert(is_radio_transaction(o, w1, band, original, desired, self.snapshot@, self.environment@, r));
                assert(is_updated_configuration(desired, original, *update));
            }
            return r;
        }
        let ghost w4 = self.environment@;
        let restore_write = self.environment.write_radio(band, &original);
        let ghost w5 = self.environment@;
        let restored = match restore_write {
            Ok(()) => match self.environment.read_radio(band) {
                Ok(state) => state.same_as(&original),
                Err(_) => false,
            },
            Err(_) => false,
        };
        if restored {
            self.clear_transaction_state();
            self.refresh_radio_snapshot(band, &original);
            let r = Err(failures::radio_rolled_back_failure());
            proof {
                reveal_with_fuel(bumped_times, 3);
                assert(radio_write_outcome(marked(w1, true), band, desired, w3, write_result));
                assert(radio_write_outcome(w4, band, original, w5, restore_write));
                assert(is_radio_transaction(o, w1, band, original, desired, self.snapshot@, self.environment@, r));
                assert(is_updated_configuration(desired, original, *update));
            }
            return r;
        }
        self.bump();
        self.snapshot.active_operation = None;
        self.snapshot.recovery_required = true;
        self.snapshot.configuration = StatusDimension::guided(StatusLevel::Attention, "Recovery required",
            "The device state could not be verified or restored. Reconcile it before any further mutation.");
        let r = Err(failures::recovery_failure());
        proof {
            reveal_with_fuel(bumped_times, 3);
            assert(radio_write_outcome(marked(w1, true), band, desired, w3, write_result));
            assert(radio_write_outcome(w4, band, original, w5, restore_write));
            assert(is_radio_transaction(o, w1, band, original, desired, self.snapshot@, self.environment@, r));
            assert(is_updated_configuration(desired, original, *update));
        }
        r
    }
}


/// The outcome of applying radio update `u` to `band` from snapshot `o` and
/// environment `w`: the request is checked against the published
/// capabilities of that radio first.
pub open spec fn is_apply_outcome(
    o: ApplicationSnapshotView,
    w: EnvironmentView,
    band: RadioBand,
    u: RadioUpdate,
    n: ApplicationSnapshotView,
    v: EnvironmentView,
    r: Result<ApplicationSnapshot, OperationFailure>,
) -> bool {
    let unchanged = n == o && v == w;
    if u.ssid matches Some(x) && !is_valid_ssid(x@) {
        (r matches Err(f) && failures::is_invalid_ssid(f)) && unchanged
    } else {
        match radio_snapshot_of(o.radios, band) {
            None => (r matches Err(f) && failures::is_radio_snapshot_missing(f)) && unchanged,
            Some(radio) => if u.ssid is Some && !radio.ssid_mutation {
                (r matches Err(f) && failures::is_ssid_not_qualified(f)) && unchanged
            } else if u.channel matches Some(c) && !radio.qualified_channels.contains(c@) {
                (r matches Err(f) && failures::is_channel_not_qualified(f)) && unchanged
            } else if u.password is Some && !radio.password_mutation {
                (r matches Err(f) && failures::is_password_unavailable(f)) && unchanged
            } else if u.password matches Some(p) && !is_valid_password(p@) {
                (r matches Err(f) && failures::is_invalid_password(f)) && unchanged
            } else if u.ssid is None && u.channel is None && u.password is None {
                (r matches Ok(s) && s@ == n) && unchanged
            } else {
                is_radio_change_outcome(o, w, band, u, n, v, r)
            },
        }
    }
}

impl Application {
    /// Applies every requested field of one radio in a single verified
    /// transaction, after checking each against the qualified capabilities.
    pub fn apply_radio_settings(&mut self, band: RadioBand, update: RadioUpdate) -> (r: Result<ApplicationSnapshot, OperationFailure>)
        ensures
            is_apply_outcome(old(self).state(), old(self).world(), band, update, final(self).state(), final(self).world(), r),
    {
        match &update.ssid {
            Some(x) => if !ssid_valid(x) {
                return Err(failures::invalid_ssid_failure());
            },
            None => {},
        }
        let k = match self.find_radio(band) {
            Some(k) => k,
            None => return Err(failures::radio_snapshot_missing_failure()),
        };
        proof {
            let chosen = choose|j: int| is_first_radio_index(self.snapshot@.radios, band, j);
            lemma_first_radio_index_unique(self.snapshot@.radios, band, chosen, k as int);
        }
        let radio = &self.snapshot.radios[k];
        assert(radio@ == radio_snapshot_of(self.snapshot@.radios, band)->0);
        if update.ssid.is_some() && !radio.ssid_mutation {
            return Err(failures::ssid_not_qualified_failure());
        }
        match &update.channel {
            Some(c) => if !crate::text::contains_text(&radio.qualified_channels, c) {
                proof {
                    if texts(radio.qualified_channels@).contains(c@) {
                        let j = choose|j: int| 0 <= j < texts(radio.qualified_channels@).len() && texts(radio.qualified_channels@)[j] == c@;
                        assert(radio.qualified_channels@[j]@ == c@);
                    }
                }
                return Err(failures::channel_not_qualified_failure());
            } else {
                proof {
                    let j = choose|j: int| 0 <= j < radio.qualified_channels@.len() && radio.qualified_channels@[j]@ == c@;
                    assert(texts(radio.qualified_channels@)[j] == c@);
                }
            },
            None => {},
        }
        match &update.password {
            Some(p) => {
                if !radio.password_mutation {
                    return Err(failures::password_unavailable_failure());
                }
                if !password_valid(p) {
                    return Err(failures::invalid_password_failure());
                }
            },
            None => {},
        }
        if update.ssid.is_none() && update.channel.is_none() && update.password.is_none() {
            return Ok(self.snapshot.copied());
        }
        self.transact_radio(band, apply_operation_label(band), &update)
    }

    /// Renames the network of one radio.
    pub fn set_radio_ssid(&mut self, band: RadioBand, ssid: &str) -> (r: Result<ApplicationSnapshot, OperationFailure>)
        ensures
            !is_valid_ssid(ssid@) ==> (r matches Err(f) && failures::is_invalid_ssid(f))
                && final(self).state() == old(self).state() && final(self).world() == old(self).world(),
            is_valid_ssid(ssid@) ==> exists|u: RadioUpdate| {
                &&& u.ssid matches Some(x) && x@ == ssid@
                &&& u.channel is None && u.password is None
                &&& #[trigger] is_apply_outcome(old(self).state(), old(self).world(), band, u, final(self).state(), final(self).world(), r)
            },
    {
        let name = text(ssid);
        if !ssid_valid(&name) {
            return Err(failures::invalid_ssid_failure());
        }
        let update = RadioUpdate { ssid: Some(name), channel: None, password: None };
        let ghost u = update;
        let r = self.apply_radio_settings(band, update);
        assert(is_apply_outcome(old(self).state(), old(self).world(), band, u, self.state(), self.world(), r));
        r
    }

    /// Sets the channel of one radio to one of its qualified channels.
    pub fn set_radio_channel(&mut self, band: RadioBand, channel: &str) -> (r: Result<ApplicationSnapshot, OperationFailure>)
        ensures
            !(radio_snapshot_of(old(self).state().radios, band) matches Some(radio) && radio.qualified_channels.contains(channel@)) ==>
                (r matches Err(f) && failures::is_channel_not_qualified(f))
                && final(self).state() == old(self).state() && final(self).world() == old(self).world(),
            (radio_snapshot_of(old(self).state().radios, band) matches Some(radio) && radio.qualified_channels.contains(channel@)) ==>
                exists|u: RadioUpdate| {
                    &&& u.channel matches Some(x) && x@ == channel@
                    &&& u.ssid is None && u.password is None
                    &&& #[trigger] is_apply_outcome(old(self).state(), old(self).world(), band, u, final(self).state(), final(self).world(), r)
                },
    {
        let value = text(channel);
        let qualified = match self.find_radio(band) {
            Some(k) => {
                proof {
                    let chosen = choose|j: int| is_first_radio_index(self.snapshot@.radios, band, j);
                    lemma_first_radio_index_unique(self.snapshot@.radios, band, chosen, k as int);
                }
                let radio = &self.snapshot.radios[k];
                let found = crate::text::contains_text(&radio.qualified_channels, &value);
                proof {
                    if found {
                        let j = choose|j: int| 0 <= j < radio.qualified_channels@.len() && radio.qualified_channels@[j]@ == value@;
                        assert(texts(radio.qualified_channels@)[j] == value@);
                    }
                    if texts(radio.qualified_channels@).contains(value@) {
                        let j = choose|j: int| 0 <= j < texts(radio.qualified_channels@).len() && texts(radio.qualified_channels@)[j] == value@;
                        assert(radio.qualified_channels@[j]@ == value@);
                    }
                }
                found
            },
            None => false,
        };
        if !qualified {
            return Err(failures::channel_not_qualified_failure());
        }
        let update = RadioUpdate { ssid: None, channel: Some(value), password: None };
        let ghost u = update;
        let r = self.apply_radio_settings(band, update);
        assert(is_apply_outcome(old(self).state(), old(self).world(), band, u, self.state(), self.world(), r));
        r
    }

    /// Replaces the password of a radio whose password change is qualified.
    pub fn set_radio_password(&mut self, band: RadioBand, password: &str) -> (r: Result<ApplicationSnapshot, OperationFailure>)
        ensures
            !(radio_snapshot_of(old(self).state().radios, band) matches Some(radio) && radio.password_mutation) ==>
                (r matches Err(f) && failures::is_password_unavailable(f))
                && final(self).state() == old(self).state() && final(self).world() == old(self).world(),
            (radio_snapshot_of(old(self).state().radios, band) matches Some(radio) && radio.password_mutation) && !is_valid_password(password@) ==>
                (r matches Err(f) && failures::is_invalid_password(f))
                && final(self).state() == old(self).state() && final(self).world() == old(self).world(),
            (radio_snapshot_of(old(self).state().radios, band) matches Some(radio) && radio.password_mutation) && is_valid_password(password@) ==>
                exists|u: RadioUpdate| {
                    &&& u.password matches Some(x) && x@ == password@
                    &&& u.ssid is None && u.channel is None
                    &&& #[trigger] is_apply_outcome(old(self).state(), old(self).world(), band, u, final(self).state(), final(self).world(), r)
                },
    {
        let available = match self.find_radio(band) {
            Some(k) => {
                proof {
                    let chosen = choose|j: int| is_first_radio_index(self.snapshot@.radios, band, j);
                    lemma_first_radio_index_unique(self.snapshot@.radios, band, chosen, k as int);
                }
                self.snapshot.radios[k].password_mutation
            },
            None => false,
        };
        if !available {
            return Err(failures::password_unavailable_failure());
        }
        let value = text(password);
        if !password_valid(&value) {
            return Err(failures::invalid_password_failure());
        }
        let update = RadioUpdate { ssid: None, channel: None, password: Some(value) };
        let ghost u = update;
        let r = self.apply_radio_settings(band, update);
        assert(is_apply_outcome(old(self).state(), old(self).world(), band, u, self.state(), self.world(), r));
        r
    }
}


/// The text that names a role to the user.
pub open spec fn role_label(role: DeviceRole) -> Seq<char> {
    match role {
        DeviceRole::PrismPulse => "PrismPulse mode"@,
        DeviceRole::WifiHotspot => "Wi-Fi hotspot mode"@,
        DeviceRole::WifiAdapter => "Wi-Fi adapter mode"@,
    }
}

fn role_label_text(role: DeviceRole) -> (r: &'static str)
    ensures
        r@ == role_label(role),
{
    match role {
        DeviceRole::PrismPulse => "PrismPulse mode",
        DeviceRole::WifiHotspot => "Wi-Fi hotspot mode",
        DeviceRole::WifiAdapter => "Wi-Fi adapter mode",
    }
}

/// A role transaction from `original` to `requested`, from snapshot `o`
/// and environment `w`: the marker is set, the role written and read back;
/// a verified read-back succeeds, an unchanged role reports that nothing
/// was applied, otherwise the original role is written back and read: a
/// verified restoration reports the rollback, anything else demands
/// recovery with the marker left set.
pub open spec fn is_role_transaction(
    o: ApplicationSnapshotView,
    w: EnvironmentView,
    original: DeviceRole,
    requested: DeviceRole,
    n: ApplicationSnapshotView,
    v: EnvironmentView,
    r: Result<ApplicationSnapshot, OperationFailure>,
) -> bool {
    exists|w2: EnvironmentView, wr: Result<(), OperationFailure>| {
        &&& #[trigger] role_write_outcome(marked(w, true), requested, w2, wr)
        &&& is_role_write_settled(o, original, requested, n, v, r, w2, wr)
    }
}

/// How a role transaction from snapshot `o` ends once the write of
/// `requested` left environment `w2` with result `wr` (see `is_role_transaction`).
pub open spec fn is_role_write_settled(
    o: ApplicationSnapshotView,
    original: DeviceRole,
    requested: DeviceRole,
    n: ApplicationSnapshotView,
    v: EnvironmentView,
    r: Result<ApplicationSnapshot, OperationFailure>,
    w2: EnvironmentView,
    wr: Result<(), OperationFailure>,
) -> bool {
    if wr is Ok && w2.role == Some(requested) {
        &&& r matches Ok(s) && s@ == n
        &&& v == marked(w2, false)
        &&& n.configuration.level == StatusLevel::Healthy
        &&& n.configuration.summary@ == role_label(requested) + " verified"@
        &&& n.configuration.guidance is None
        &&& (match (n.verified_puppis, o.verified_puppis) {
            (Some(a), Some(b)) => a.model == b.model && a.firmware == b.firmware && a.role_code@ == code_for_role(requested),
            (None, None) => true,
            _ => false,
        })
        &&& n == ApplicationSnapshotView {
            revision: bumped_times(o.revision, 3),
            active_operation: None,
            device_role: Some(requested),
            verified_puppis: n.verified_puppis,
            configuration: n.configuration,
            ..o
        }
    } else if w2.role == Some(original) {
        &&& r matches Err(f) && failures::is_role_not_applied(f)
        &&& v == marked(w2, false)
        &&& is_role_in_progress_status(n.configuration)
        &&& n == ApplicationSnapshotView {
            revision: bumped_times(o.revision, 2),
            active_operation: None,
            configuration: n.configuration,
            ..o
        }
    } else {
        exists|w3: EnvironmentView, rr: Result<(), OperationFailure>| {
            &&& #[trigger] role_write_outcome(w2, original, w3, rr)
            &&& is_role_restore_settled(o, original, n, v, r, w3, rr)
        }
    }
}

/// How a role transaction from snapshot `o` ends once writing `original`
/// back left environment `w3` with result `rr`.
pub open spec fn is_role_restore_settled(
    o: ApplicationSnapshotView,
    original: DeviceRole,
    n: ApplicationSnapshotView,
    v: EnvironmentView,
    r: Result<ApplicationSnapshot, OperationFailure>,
    w3: EnvironmentView,
    rr: Result<(), OperationFailure>,
) -> bool {
    if rr is Ok && w3.role == Some(original) {
        &&& r matches Err(f) && failures::is_role_rolled_back(f)
        &&& v == marked(w3, false)
        &&& is_role_in_progress_status(n.configuration)
        &&& n == ApplicationSnapshotView {
            revision: bumped_times(o.revision, 2),
            active_operation: None,
            configuration: n.configuration,
            ..o
        }
    } else {
        &&& r matches Err(f) && failures::is_recovery(f)
        &&& v == w3
        &&& v.interrupted
        &&& status_guided(n.configuration, StatusLevel::Attention, "Recovery required",
            "The device role could not be verified or restored.")
        &&& n == ApplicationSnapshotView {
            revision: bumped_times(o.revision, 2),
            active_operation: None,
            recovery_required: true,
            configuration: n.configuration,
            ..o
        }
    }
}

/// The configuration status while a role transition runs.
pub open spec fn is_role_in_progress_status(s: StatusDimension) -> bool {
    status_guided(s, StatusLevel::Attention, "Device role transition in progress", "Connected clients may disconnect.")
}

/// The outcome of requesting the device role `requested` (confirmed or
/// not) from snapshot `o` and environment `w`.
pub open spec fn is_role_change_outcome(
    o: ApplicationSnapshotView,
    w: EnvironmentView,
    requested: DeviceRole,
    confirmed: bool,
    n: ApplicationSnapshotView,
    v: EnvironmentView,
    r: Result<ApplicationSnapshot, OperationFailure>,
) -> bool {
    let unchanged = n == o && v == w;
    if requested == DeviceRole::WifiAdapter {
        (r matches Err(f) && failures::is_role_not_supported(f)) && unchanged
    } else if !confirmed {
        (r matches Err(f) && failures::is_role_confirmation(f)) && unchanged
    } else if o.recovery_required {
        (r matches Err(f) && failures::is_recovery(f)) && unchanged
    } else if !o.mutations_qualified {
        (r matches Err(f) && failures::is_role_not_qualified(f)) && unchanged
    } else {
        match w.role {
            None => (r matches Err(f) && failures::is_role_unavailable(f)) && unchanged,
            Some(original) => if original == requested {
                (r matches Ok(s) && s@ == n) && unchanged
            } else {
                is_role_transaction(o, w, original, requested, n, v, r)
            },
        }
    }
}

impl Application {
    /// Switches the device role after explicit confirmation, verifying the
    /// result by reading the role back and restoring the original role when
    /// the requested one cannot be verified.
    pub fn set_device_role(&mut self, requested: DeviceRole, confirmed: bool) -> (r: Result<ApplicationSnapshot, OperationFailure>)
        ensures
            is_role_change_outcome(old(self).state(), old(self).world(), requested, confirmed, final(self).state(), final(self).world(), r),
    {
        if requested == DeviceRole::WifiAdapter {
            return Err(failures::role_not_supported_failure());
        }
        if !confirmed {
            return Err(failures::role_confirmation_failure());
        }
        if self.snapshot.recovery_required {
            return Err(failures::recovery_failure());
        }
        if !self.snapshot.mutations_qualified {
            return Err(failures::role_not_qualified_failure());
        }
        let original = self.environment.read_role()?;
        if original == requested {
            return Ok(self.snapshot.copied());
        }
        let ghost o = self.snapshot@;
        let ghost w = self.environment@;
        self.environment.set_interrupted_marker(true);
        self.bump();
        self.snapshot.active_operation = Some(text("Switch from ").concat(role_label_text(original)).concat(" to ").concat(role_label_text(requested)));
        self.snapshot.configuration = StatusDimension::guided(StatusLevel::Attention, "Device role transition in progress",
            "Connected clients may disconnect.");
        let write = self.environment.write_role(requested);
        let ghost w2 = self.environment@;
        let observed = self.environment.read_role();
        let verified = match &observed {
            Ok(role) => write.is_ok() && *role == requested,
            Err(_) => false,
        };
        if verified {
            self.clear_transaction_state();
            self.bump();
            self.snapshot.device_role = Some(requested);
            match &mut self.snapshot.verified_puppis {
                Some(identity) => identity.role_code = requested.code(),
                None => {},
            }
            self.snapshot.configuration = StatusDimension {
                level: StatusLevel::Healthy,
                summary: text(role_label_text(requested)).concat(" verified"),
                guidance: None,
            };
            let r = Ok(self.snapshot.copied());
            proof {
                reveal_with_fuel(bumped_times, 4);
                assert(role_write_outcome(marked(w, true), requested, w2, write));
                assert(is_role_transaction(o, w, original, requested, self.snapshot@, self.environment@, r));
            }
            return r;
        }
        let unchanged = match &observed {
            Ok(role) => *role == original,
            Err(_) => false,
        };
        if unchanged {
            self.clear_transaction_state();
            let r = Err(failures::role_not_applied_failure());
            proof {
                reveal_with_fuel(bumped_times, 3);
                assert(role_write_outcome(marked(w, true), requested, w2, write));
                assert(is_role_transaction(o, w, original, requested, self.snapshot@, self.environment@, r));
            }
            return r;
        }
        let restore = self.environment.write_role(original);
        let ghost w3 = self.environment@;
        let restored = match restore {
            Ok(()) => match self.environment.read_role() {
                Ok(role) => role == original,
                Err(_) => false,
            },
            Err(_) => false,
        };
        if restored {
            self.clear_transaction_state();
            let r = Err(failures::role_rolled_back_failure());
            proof {
                reveal_with_fuel(bumped_times, 3);
                assert(role_write_outcome(marked(w, true), requested, w2, write));
                assert(role_write_outcome(w2, original, w3, restore));
                assert(is_role_transaction(o, w, original, requested, self.snapshot@, self.environment@, r));
            }
            return r;
        }
        self.bump();
        self.snapshot.active_operation = None;
        self.snapshot.recovery_required = true;
        self.snapshot.configuration = StatusDimension::guided(StatusLevel::Attention, "Recovery required",
            "The device role could not be verified or restored.");
        let r = Err(failures::recovery_failure());
        proof {
            reveal_with_fuel(bumped_times, 3);
            assert(role_write_outcome(marked(w, true), requested, w2, write));
            assert(role_write_outcome(w2, original, w3, restore));
            assert(is_role_transaction(o, w, original, requested, self.snapshot@, self.environment@, r));
        }
        r
    }
}


/// The outcome of accepting the current device state as the recovery
/// baseline from snapshot `o` and environment `w`.
pub open spec fn is_baseline_outcome(
    o: ApplicationSnapshotView,
    w: EnvironmentView,
    n: ApplicationSnapshotView,
    v: EnvironmentView,
    r: Result<ApplicationSnapshot, OperationFailure>,
) -> bool {
    if !o.recovery_required {
        (r matches Err(f) && failures::is_recovery_not_required(f)) && n == o && v == w
    } else if o.verified_puppis is None {
        (r matches Err(f) && failures::is_baseline_requires_verification(f)) && n == o && v == w
    } else {
        match (w.five_ghz, w.two_point_four_ghz, w.role) {
            (None, _, _) => (r matches Err(f) && failures::is_radio_read_unavailable(f)) && n == o && v == read_once(w),
            (Some(_), None, _) => (r matches Err(f) && failures::is_radio_read_unavailable(f)) && n == o && v == read_once(read_once(w)),
            (Some(_), Some(_), None) => (r matches Err(f) && failures::is_role_unavailable(f)) && n == o && v == read_once(read_once(w)),
            (Some(five), Some(two), Some(role)) => {
                &&& r matches Ok(s) && s@ == n
                &&& v == marked(read_once(read_once(w)), false)
                &&& status_is(n.configuration, StatusLevel::Healthy, "Current device state accepted as the recovery baseline")
                &&& (match (n.verified_puppis, o.verified_puppis) {
                    (Some(a), Some(b)) => a.model == b.model && a.firmware == b.firmware && a.role_code@ == code_for_role(role),
                    _ => false,
                })
                &&& n == ApplicationSnapshotView {
                    revision: bumped(o.revision),
                    radios: radios_refreshed(radios_refreshed(o.radios, RadioBand::FiveGhz, five), RadioBand::TwoPointFourGhz, two),
                    device_role: Some(role),
                    verified_puppis: n.verified_puppis,
                    recovery_required: false,
                    active_operation: None,
                    configuration: n.configuration,
                    ..o
                }
            },
        }
    }
}

/// The outcome of disabling (or removing) the owned sharing profile from
/// snapshot `o` and environment `w` on interface `i`: external profiles
/// are never changed; on success host sharing is inspected again.
pub open spec fn is_profile_change_outcome(
    o: ApplicationSnapshotView,
    w: EnvironmentView,
    changed: EnvironmentView,
    n: ApplicationSnapshotView,
    v: EnvironmentView,
    r: Result<ApplicationSnapshot, OperationFailure>,
) -> bool {
    let h = w.host_sharing->0;
    if h.profile_kind != crate::model::ProfileKind::Managed {
        &&& r matches Err(f) && failures::is_external_profile(f)
        &&& v == w
        &&& n == ApplicationSnapshotView { revision: bumped_times(o.revision, 2), active_operation: None, ..o }
    } else {
        &&& v == changed
        &&& is_inspection_with(ApplicationSnapshotView { revision: bumped_times(o.revision, 2), active_operation: None, ..o }, changed.host_sharing->0, n)
        &&& r matches Ok(s) && s@ == n
    }
}

impl Application {
    /// Accepts the device state as it is now (both radios and the role, read
    /// again) as the new baseline, ending a required recovery.
    pub fn accept_current_configuration_as_baseline(&mut self) -> (r: Result<ApplicationSnapshot, OperationFailure>)
        ensures
            is_baseline_outcome(old(self).state(), old(self).world(), final(self).state(), final(self).world(), r),
    {
        if !self.snapshot.recovery_required {
            return Err(failures::recovery_not_required_failure());
        }
        if self.snapshot.verified_puppis.is_none() {
            return Err(failures::baseline_requires_verification_failure());
        }
        let five = self.environment.read_radio(RadioBand::FiveGhz)?;
        let two = self.environment.read_radio(RadioBand::TwoPointFourGhz)?;
        let role = self.environment.read_role()?;
        self.refresh_radio_snapshot(RadioBand::FiveGhz, &five);
        self.refresh_radio_snapshot(RadioBand::TwoPointFourGhz, &two);
        self.environment.set_interrupted_marker(false);
        self.bump();
        self.snapshot.device_role = Some(role);
        match &mut self.snapshot.verified_puppis {
            Some(identity) => identity.role_code = role.code(),
            None => {},
        }
        self.snapshot.recovery_required = false;
        self.snapshot.active_operation = None;
        self.snapshot.configuration = StatusDimension::plain(StatusLevel::Healthy, "Current device state accepted as the recovery baseline");
        Ok(self.snapshot.copied())
    }

    /// Deactivates the owned sharing profile and stops it connecting
    /// automatically; an external profile is refused.
    pub fn disable_managed_sharing(&mut self) -> (r: Result<ApplicationSnapshot, OperationFailure>)
        requires
            selected_interface_of(old(self).state()) is Some ==> old(self).world().host_sharing is Some,
        ensures
            is_disable_sharing_outcome(old(self).state(), old(self).world(), final(self).state(), final(self).world(), r),
    {
        let interface_name = self.selected_interface()?;
        let ghost o = self.snapshot@;
        self.begin_operation("Disable managed host sharing");
        let result = self.environment.disable_managed(&interface_name);
        self.end_operation();
        match result {
            Ok(()) => {
                let r = self.inspect_host_sharing();
                proof {
                    reveal_with_fuel(bumped_times, 3);
                    assert(selected_interface_of(self.snapshot@) == selected_interface_of(o));
                }
                r
            },
            Err(e) => {
                proof { reveal_with_fuel(bumped_times, 3); }
                Err(e)
            },
        }
    }

    /// Deactivates and deletes the owned sharing profile; an external
    /// profile is refused.
    pub fn remove_managed_sharing(&mut self) -> (r: Result<ApplicationSnapshot, OperationFailure>)
        requires
            selected_interface_of(old(self).state()) is Some ==> old(self).world().host_sharing is Some,
        ensures
            is_remove_sharing_outcome(old(self).state(), old(self).world(), final(self).state(), final(self).world(), r),
    {
        let interface_name = self.selected_interface()?;
        let ghost o = self.snapshot@;
        self.begin_operation("Remove managed host sharing");
        let result = self.environment.remove_managed(&interface_name);
        self.end_operation();
        match result {
            Ok(()) => {
                let r = self.inspect_host_sharing();
                proof {
                    reveal_with_fuel(bumped_times, 3);
                    assert(selected_interface_of(self.snapshot@) == selected_interface_of(o));
                }
                r
            },
            Err(e) => {
                proof { reveal_with_fuel(bumped_times, 3); }
                Err(e)
            },
        }
    }
}


/// `after` shows the entries of `before` in display order.
pub open spec fn is_display_sorting(after: Seq<ClientEvidenceView>, before: Seq<ClientEvidenceView>) -> bool {
    &&& after.to_multiset() == before.to_multiset()
    &&& after.len() == before.len()
    &&& is_display_ordered(after)
}

/// `after` holds the saved clients of `before` ordered by lower-cased label.
pub open spec fn is_label_sorting(after: Seq<SavedClientView>, before: Seq<SavedClientView>) -> bool {
    &&& after.to_multiset() == before.to_multiset()
    &&& after.len() == before.len()
    &&& is_label_ordered(after)
}

/// The evidence with the first entry of hardware address `h` shown under
/// `name` and marked saved or not.
pub open spec fn relabelled(e: Seq<ClientEvidenceView>, h: Seq<char>, name: Seq<char>, saved: bool) -> Seq<ClientEvidenceView> {
    if exists|k: int| is_first_evidence_index(e, h, k) {
        let k = choose|k: int| is_first_evidence_index(e, h, k);
        e.update(k, ClientEvidenceView { display_name: name, saved, ..e[k] })
    } else {
        e
    }
}

/// The evidence with the first entry of hardware address `h` shown under
/// `name` (its saved flag unchanged).
pub open spec fn renamed(e: Seq<ClientEvidenceView>, h: Seq<char>, name: Seq<char>) -> Seq<ClientEvidenceView> {
    if exists|k: int| is_first_evidence_index(e, h, k) {
        let k = choose|k: int| is_first_evidence_index(e, h, k);
        e.update(k, ClientEvidenceView { display_name: name, ..e[k] })
    } else {
        e
    }
}

/// Every entry shown as an unlabeled, unsaved client.
pub open spec fn all_unlabelled(e: Seq<ClientEvidenceView>) -> Seq<ClientEvidenceView> {
    e.map_values(|x: ClientEvidenceView| ClientEvidenceView { display_name: "Unlabeled client"@, saved: false, ..x })
}

pub open spec fn is_first_evidence_index(e: Seq<ClientEvidenceView>, h: Seq<char>, k: int) -> bool {
    &&& 0 <= k < e.len()
    &&& e[k].hardware_address == h
    &&& forall|j: int| 0 <= j < k ==> e[j].hardware_address != h
}

/// The saved clients with `c` replacing the first entry of its hardware
/// address, or added at the end when there is none.
pub open spec fn upserted(saved: Seq<SavedClientView>, c: SavedClientView) -> Seq<SavedClientView> {
    if exists|k: int| is_first_saved_index(saved, c.hardware_address, k) {
        saved.update(choose|k: int| is_first_saved_index(saved, c.hardware_address, k), c)
    } else {
        saved.push(c)
    }
}

/// Committing `clients` to storage from snapshot `o` and environment `w`:
/// refused with the recorded failure, changing nothing, while a storage
/// failure is recorded; refused by unwritable storage, in which case the
/// failure is recorded in both and saved-client changes are disabled;
/// accepted otherwise.
pub open spec fn is_commit(
    o: ApplicationSnapshotView,
    w: EnvironmentView,
    clients: Seq<SavedClientView>,
    n: ApplicationSnapshotView,
    v: EnvironmentView,
    res: Result<(), OperationFailure>,
) -> bool {
    match w.saved_clients_failure {
        Some(f) => res == Err::<(), OperationFailure>(f) && n == o && v == w,
        None => if w.saved_clients_storage == SavedClientStorage::Unwritable {
            res matches Err(f) && failures::is_storage_write(f) && is_storage_disabled(o, w, f, n, v)
        } else {
            res is Ok && n == o && v == EnvironmentView { saved_clients: clients, ..w }
        },
    }
}

/// The storage failure `f` is recorded and saved-client changes are disabled.
pub open spec fn is_storage_disabled(o: ApplicationSnapshotView, w: EnvironmentView, f: OperationFailure, n: ApplicationSnapshotView, v: EnvironmentView) -> bool {
    &&& v == EnvironmentView { saved_clients_failure: Some(f), ..w }
    &&& n == ApplicationSnapshotView {
        revision: bumped(o.revision),
        saved_clients_available: false,
        saved_clients_failure: Some(f),
        ..o
    }
}

impl Application {
    /// Stores the saved clients; a refusal is recorded and disables further
    /// saved-client changes.
    fn commit_saved_clients(&mut self, clients: Vec<SavedClient>) -> (r: Result<(), OperationFailure>)
        ensures
            is_commit(old(self).state(), old(self).world(), saved_views(clients@), final(self).state(), final(self).world(), r),
    {
        match &self.environment.saved_clients_failure {
            Some(f) => return Err(f.copied()),
            None => {},
        }
        match self.environment.persist_saved_clients(&clients) {
            Ok(()) => {
                self.environment.saved_clients = clients;
                Ok(())
            },
            Err(f) => {
                self.environment.saved_clients_failure = Some(f.copied());
                self.bump();
                self.snapshot.saved_clients_available = false;
                self.snapshot.saved_clients_failure = Some(f.copied());
                Err(f)
            },
        }
    }

    /// Records that the saved-client storage refused a write with `failure`
    /// (found when the host stored the clients): saved-client changes are
    /// disabled from now on.
    pub fn refuse_saved_client_storage(&mut self, failure: OperationFailure)
        ensures
            is_storage_disabled(old(self).state(), old(self).world(), failure, final(self).state(), final(self).world()),
    {
        self.environment.saved_clients_failure = Some(failure.copied());
        self.bump();
        self.snapshot.saved_clients_available = false;
        self.snapshot.saved_clients_failure = Some(failure);
    }

    /// Publishes the environment's saved clients.
    fn publish_saved_clients(&mut self)
        ensures
            final(self).world() == old(self).world(),
            final(self).state() == (ApplicationSnapshotView { saved_clients: old(self).world().saved_clients, ..old(self).state() }),
    {
        self.snapshot.saved_clients = copy_saved_clients(&self.environment.saved_clients);
    }

    /// Orders the published evidence for display.
    fn sort_evidence(&mut self)
        ensures
            final(self).world() == old(self).world(),
            is_display_sorting(final(self).state().client_evidence, old(self).state().client_evidence),
            final(self).state() == (ApplicationSnapshotView { client_evidence: final(self).state().client_evidence, ..old(self).state() }),
    {
        let mut e: Vec<ClientEvidence> = Vec::new();
        std::mem::swap(&mut e, &mut self.snapshot.client_evidence);
        self.snapshot.client_evidence = sort_client_evidence(e);
    }

    /// The index of the first published evidence entry of a hardware address.
    fn find_evidence_index(&self, h: &String) -> (r: Option<usize>)
        ensures
            match r {
                Some(k) => is_first_evidence_index(self.state().client_evidence, h@, k as int),
                None => !exists|k: int| is_first_evidence_index(self.state().client_evidence, h@, k),
            },
    {
        for i in 0..self.snapshot.client_evidence.len()
            invariant
                forall|j: int| 0 <= j < i ==> evidence_views(self.snapshot.client_evidence@)[j].hardware_address != h@,
        {
            if self.snapshot.client_evidence[i].hardware_address == *h {
                proof {
                    if exists|k: int| 0 <= k < i && is_first_evidence_index(self.state().client_evidence, h@, k) {}
                }
                return Some(i);
            }
        }
        proof {
            if exists|k: int| is_first_evidence_index(self.state().client_evidence, h@, k) {
                let k = choose|k: int| is_first_evidence_index(self.state().client_evidence, h@, k);
                assert(evidence_views(self.snapshot.client_evidence@)[k].hardware_address == h@);
            }
        }
        None
    }

    /// Shows the first evidence entry of `h` under `name`, with the given
    /// saved flag when one is given.
    fn relabel_evidence(&mut self, h: &String, name: &String, saved: Option<bool>)
        ensures
            final(self).world() == old(self).world(),
            final(self).state() == (ApplicationSnapshotView {
                client_evidence: match saved {
                    Some(b) => relabelled(old(self).state().client_evidence, h@, name@, b),
                    None => renamed(old(self).state().client_evidence, h@, name@),
                },
                ..old(self).state()
            }),
    {
        match self.find_evidence_index(h) {
            Some(k) => {
                let ghost before = self.snapshot@.client_evidence;
                let mut entry = self.snapshot.client_evidence[k].copied();
                entry.display_name = name.clone();
                match saved {
                    Some(b) => entry.saved = b,
                    None => {},
                }
                self.snapshot.client_evidence.set(k, entry);
                proof {
                    let chosen = choose|j: int| is_first_evidence_index(before, h@, j);
                    assert(chosen == k as int) by {
                        if chosen < k as int {
                            assert(before[chosen].hardware_address != h@);
                        } else if chosen > k as int {
                            assert(before[k as int].hardware_address != h@);
                        }
                    }
                    match saved {
                        Some(b) => assert(evidence_views(self.snapshot.client_evidence@) =~= relabelled(before, h@, name@, b)),
                        None => assert(evidence_views(self.snapshot.client_evidence@) =~= renamed(before, h@, name@)),
                    }
                }
            },
            None => {},
        }
    }

    /// Shows every evidence entry as an unlabeled, unsaved client.
    fn unlabel_all_evidence(&mut self)
        ensures
            final(self).world() == old(self).world(),
            final(self).state() == (ApplicationSnapshotView {
                client_evidence: all_unlabelled(old(self).state().client_evidence),
                ..old(self).state()
            }),
    {
        let ghost before = self.snapshot@.client_evidence;
        let mut out: Vec<ClientEvidence> = Vec::new();
        for i in 0..self.snapshot.client_evidence.len()
            invariant
                before == evidence_views(self.snapshot.client_evidence@),
                out@.len() == i,
                forall|j: int| 0 <= j < i ==> (#[trigger] out@[j])@ == all_unlabelled(before)[j],
        {
            let mut entry = self.snapshot.client_evidence[i].copied();
            entry.display_name = text("Unlabeled client");
            entry.saved = false;
            out.push(entry);
        }
        self.snapshot.client_evidence = out;
        assert(evidence_views(self.snapshot.client_evidence@) =~= all_unlabelled(before));
    }
}


/// A saved client record.
pub open spec fn saved_entry(label: Seq<char>, h: Seq<char>, now: u64, addresses: Seq<Seq<char>>) -> SavedClientView {
    SavedClientView { label, hardware_address: h, last_observed_at: now, addresses }
}

/// The outcome of saving label `label` for hardware address `hw` from
/// snapshot `o` and environment `w`: the trimmed label must be valid and
/// unique, the client currently observed, and at most ten clients saved.
pub open spec fn is_save_outcome(
    o: ApplicationSnapshotView,
    w: EnvironmentView,
    hw: Seq<char>,
    label: Seq<char>,
    n: ApplicationSnapshotView,
    v: EnvironmentView,
    r: Result<ApplicationSnapshot, OperationFailure>,
) -> bool {
    let name = trimmed(label);
    let key = hardware_key(hw);
    let unchanged = n == o && v == w;
    if !is_valid_label(name) {
        (r matches Err(f) && failures::is_invalid_label(f)) && unchanged
    } else {
        match evidence_for(o.client_evidence, key) {
            None => (r matches Err(f) && failures::is_save_requires_observation(f)) && unchanged,
            Some(observed) => if label_taken(w.saved_clients, key, name) {
                (r matches Err(f) && failures::is_label_not_unique(f)) && unchanged
            } else if w.saved_clients.len() >= SAVED_CLIENT_LIMIT && !is_saved_hardware(w.saved_clients, key) {
                (r matches Err(f) && failures::is_saved_client_limit(f)) && unchanged
            } else {
                exists|now: u64, clients: Seq<SavedClientView>, res: Result<(), OperationFailure>, m: ApplicationSnapshotView|
                    #![trigger is_commit(o, w, clients, m, v, res), saved_entry(name, key, now, observed.addresses)] {
                    &&& (w.current_time > 0 ==> now == w.current_time)
                    &&& is_label_sorting(clients, upserted(w.saved_clients, saved_entry(name, key, now, observed.addresses)))
                    &&& is_commit(o, w, clients, m, v, res)
                    &&& match res {
                        Err(f) => r == Err::<ApplicationSnapshot, OperationFailure>(f) && n == m,
                        Ok(_) => {
                            &&& r matches Ok(s) && s@ == n
                            &&& is_display_sorting(n.client_evidence, relabelled(o.client_evidence, key, name, true))
                            &&& n == ApplicationSnapshotView {
                                revision: bumped(o.revision),
                                saved_clients: clients,
                                client_evidence: n.client_evidence,
                                ..o
                            }
                        },
                    }
                }
            },
        }
    }
}

impl Application {
    /// Saves a label for a currently observed client.
    pub fn save_client_label(&mut self, hardware_address: &str, label: &str) -> (r: Result<ApplicationSnapshot, OperationFailure>)
        ensures
            is_save_outcome(old(self).state(), old(self).world(), hardware_address@, label@, final(self).state(), final(self).world(), r),
    {
        let name = trim(label);
        if !is_label_valid(&name) {
            return Err(failures::invalid_label_failure());
        }
        let key = ascii_lowercase(hardware_address);
        let observed = match self.find_evidence_index(&key) {
            Some(k) => {
                proof { self.lemma_first_evidence(key@, k as int); }
                self.snapshot.client_evidence[k].copied()
            },
            None => {
                proof { self.lemma_no_evidence(key@); }
                return Err(failures::save_requires_observation_failure());
            },
        };
        if is_label_taken(&self.environment.saved_clients, &key, &name) {
            return Err(failures::label_not_unique_failure());
        }
        let existing = find_saved(&self.environment.saved_clients, &key);
        if self.environment.saved_clients.len() >= SAVED_CLIENT_LIMIT && existing.is_none() {
            return Err(failures::saved_client_limit_failure());
        }
        let now = self.environment.current_time();
        let entry = SavedClient { label: name.clone(), hardware_address: key.clone(), last_observed_at: now, addresses: observed.addresses };
        let mut clients = copy_saved_clients(&self.environment.saved_clients);
        let ghost before = saved_views(clients@);
        let ghost e = entry@;
        assert(e.hardware_address == key@);
        match existing {
            Some(k) => {
                clients.set(k, entry);
                proof {
                    assert(is_first_saved_index(before, key@, k as int));
                    let chosen = choose|j: int| is_first_saved_index(before, key@, j);
                    assert(chosen == k as int) by {
                        if chosen < k as int { assert(before[chosen].hardware_address != key@); }
                        else if chosen > k as int { assert(before[k as int].hardware_address != key@); }
                    }
                    assert(saved_views(clients@) =~= upserted(before, e));
                }
            },
            None => {
                clients.push(entry);
                proof {
                    if exists|j: int| is_first_saved_index(before, key@, j) {
                        let j = choose|j: int| is_first_saved_index(before, key@, j);
                        assert(is_saved_hardware(before, key@));
                    }
                    assert(!exists|j: int| is_first_saved_index(before, key@, j));
                    assert(upserted(before, e) == before.push(e));
                    assert(saved_views(clients@) =~= before.push(e));
                    assert(saved_views(clients@) =~= upserted(before, e));
                }
            },
        }
        let ghost changed = saved_views(clients@);
        let sorted = sort_saved_clients(clients);
        let ghost sorted_view = saved_views(sorted@);
        assert(is_label_sorting(sorted_view, changed));
        let ghost o = self.snapshot@;
        let ghost w = self.environment@;
        match self.commit_saved_clients(sorted) {
            Err(f) => {
                let r = Err(f);
                proof {
                    assert(is_commit(o, w, sorted_view, self.snapshot@, self.environment@, Err::<(), OperationFailure>(f)));
                    assert(saved_entry(name@, key@, now, observed@.addresses) == e);
                }
                r
            },
            Ok(()) => {
                let ghost m = self.snapshot@;
                self.bump();
                self.publish_saved_clients();
                self.relabel_evidence(&key, &name, Some(true));
                self.sort_evidence();
                let r = Ok(self.snapshot.copied());
                proof {
                    assert(is_commit(o, w, sorted_view, m, self.environment@, Ok::<(), OperationFailure>(())));
                    assert(saved_entry(name@, key@, now, observed@.addresses) == e);
                }
                r
            },
        }
    }

    proof fn lemma_first_evidence(&self, h: Seq<char>, k: int)
        requires
            is_first_evidence_index(self.state().client_evidence, h, k),
        ensures
            evidence_for(self.state().client_evidence, h) == Some(self.state().client_evidence[k]),
    {
        lemma_evidence_for_first(self.state().client_evidence, h, k);
    }

    proof fn lemma_no_evidence(&self, h: Seq<char>)
        requires
            !exists|k: int| is_first_evidence_index(self.state().client_evidence, h, k),
        ensures
            evidence_for(self.state().client_evidence, h) is None,
    {
        lemma_evidence_for_none(self.state().client_evidence, h);
    }
}

proof fn lemma_evidence_for_first(e: Seq<ClientEvidenceView>, h: Seq<char>, k: int)
    requires
        is_first_evidence_index(e, h, k),
    ensures
        evidence_for(e, h) == Some(e[k]),
    decreases k,
{
    if k > 0 {
        assert(e[0].hardware_address != h);
        assert(is_first_evidence_index(e.drop_first(), h, k - 1)) by {
            assert forall|j: int| 0 <= j < k - 1 implies e.drop_first()[j].hardware_address != h by {
                assert(e.drop_first()[j] == e[j + 1]);
            }
        }
        lemma_evidence_for_first(e.drop_first(), h, k - 1);
    }
}

proof fn lemma_evidence_for_none(e: Seq<ClientEvidenceView>, h: Seq<char>)
    requires
        !exists|k: int| is_first_evidence_index(e, h, k),
    ensures
        evidence_for(e, h) is None,
    decreases e.len(),
{
    if e.len() > 0 {
        if e[0].hardware_address == h {
            assert(is_first_evidence_index(e, h, 0));
        } else {
            assert forall|k: int| !is_first_evidence_index(e.drop_first(), h, k) by {
                if is_first_evidence_index(e.drop_first(), h, k) {
                    assert forall|j: int| 0 <= j < k + 1 implies e[j].hardware_address != h by {
                        if j > 0 { assert(e[j] == e.drop_first()[j - 1]); }
                    }
                    assert(is_first_evidence_index(e, h, k + 1));
                }
            }
            lemma_evidence_for_none(e.drop_first(), h);
        }
    }
}


/// The result of a saved-client change that commits `clients`: a refused
/// commit is reported; an accepted one publishes the clients and the
/// evidence `e` in display order.
pub open spec fn is_committed_change(
    o: ApplicationSnapshotView,
    w: EnvironmentView,
    clients: Seq<SavedClientView>,
    e: Seq<ClientEvidenceView>,
    n: ApplicationSnapshotView,
    v: EnvironmentView,
    r: Result<ApplicationSnapshot, OperationFailure>,
) -> bool {
    exists|res: Result<(), OperationFailure>, m: ApplicationSnapshotView| {
        &&& #[trigger] is_commit(o, w, clients, m, v, res)
        &&& match res {
            Err(f) => r == Err::<ApplicationSnapshot, OperationFailure>(f) && n == m,
            Ok(_) => {
                &&& r matches Ok(s) && s@ == n
                &&& is_display_sorting(n.client_evidence, e)
                &&& n == ApplicationSnapshotView {
                    revision: bumped(o.revision),
                    saved_clients: clients,
                    client_evidence: n.client_evidence,
                    ..o
                }
            },
        }
    }
}

/// A saved client under another label.
pub open spec fn labelled_as(c: SavedClientView, label: Seq<char>) -> SavedClientView {
    SavedClientView { label: label, ..c }
}

/// The outcome of renaming the saved client of `hw` to `label`.
pub open spec fn is_rename_outcome(
    o: ApplicationSnapshotView,
    w: EnvironmentView,
    hw: Seq<char>,
    label: Seq<char>,
    n: ApplicationSnapshotView,
    v: EnvironmentView,
    r: Result<ApplicationSnapshot, OperationFailure>,
) -> bool {
    let name = trimmed(label);
    let key = hardware_key(hw);
    let unchanged = n == o && v == w;
    if !is_valid_label(name) {
        (r matches Err(f) && failures::is_invalid_label(f)) && unchanged
    } else if label_taken(w.saved_clients, key, name) {
        (r matches Err(f) && failures::is_label_not_unique(f)) && unchanged
    } else if !is_saved_hardware(w.saved_clients, key) {
        (r matches Err(f) && failures::is_saved_client_not_found(f)) && unchanged
    } else {
        let k = choose|k: int| is_first_saved_index(w.saved_clients, key, k);
        exists|clients: Seq<SavedClientView>| {
            &&& #[trigger] is_label_sorting(clients, w.saved_clients.update(k, labelled_as(w.saved_clients[k], name)))
            &&& is_committed_change(o, w, clients, renamed(o.client_evidence, key, name), n, v, r)
        }
    }
}

/// The evidence after moving a saved label from hardware address `p` to `q`.
pub open spec fn reassociated(e: Seq<ClientEvidenceView>, p: Seq<char>, q: Seq<char>, label: Seq<char>) -> Seq<ClientEvidenceView> {
    e.map_values(|x: ClientEvidenceView|
        if x.hardware_address == p {
            ClientEvidenceView { display_name: "Unlabeled client"@, saved: false, ..x }
        } else if x.hardware_address == q {
            ClientEvidenceView { display_name: label, saved: true, ..x }
        } else {
            x
        })
}

/// The outcome of moving the saved client of `previous` to the observed
/// hardware address `new`.
pub open spec fn is_reassociate_outcome(
    o: ApplicationSnapshotView,
    w: EnvironmentView,
    previous: Seq<char>,
    new: Seq<char>,
    confirmed: bool,
    n: ApplicationSnapshotView,
    v: EnvironmentView,
    r: Result<ApplicationSnapshot, OperationFailure>,
) -> bool {
    let p = hardware_key(previous);
    let q = hardware_key(new);
    let unchanged = n == o && v == w;
    if !confirmed {
        (r matches Err(f) && failures::is_reassociation_confirmation(f)) && unchanged
    } else {
        match evidence_for(o.client_evidence, q) {
            None => (r matches Err(f) && failures::is_reassociation_requires_observation(f)) && unchanged,
            Some(observed) => if is_saved_hardware(w.saved_clients, q) {
                (r matches Err(f) && failures::is_saved_client_exists(f)) && unchanged
            } else if !is_saved_hardware(w.saved_clients, p) {
                (r matches Err(f) && failures::is_saved_client_not_found(f)) && unchanged
            } else {
                let k = choose|k: int| is_first_saved_index(w.saved_clients, p, k);
                exists|now: u64| {
                    &&& (w.current_time > 0 ==> now == w.current_time)
                    &&& #[trigger] is_committed_change(o, w,
                        w.saved_clients.update(k, saved_entry(w.saved_clients[k].label, q, now, observed.addresses)),
                        reassociated(o.client_evidence, p, q, w.saved_clients[k].label), n, v, r)
                }
            },
        }
    }
}

impl Application {
    /// Renames a saved client.
    pub fn rename_saved_client(&mut self, hardware_address: &str, label: &str) -> (r: Result<ApplicationSnapshot, OperationFailure>)
        ensures
            is_rename_outcome(old(self).state(), old(self).world(), hardware_address@, label@, final(self).state(), final(self).world(), r),
    {
        let name = trim(label);
        if !is_label_valid(&name) {
            return Err(failures::invalid_label_failure());
        }
        let key = ascii_lowercase(hardware_address);
        if is_label_taken(&self.environment.saved_clients, &key, &name) {
            return Err(failures::label_not_unique_failure());
        }
        let k = match find_saved(&self.environment.saved_clients, &key) {
            Some(k) => k,
            None => return Err(failures::saved_client_not_found_failure()),
        };
        let ghost o = self.snapshot@;
        let ghost w = self.environment@;
        let mut clients = copy_saved_clients(&self.environment.saved_clients);
        let mut entry = clients[k].copied();
        entry.label = name.clone();
        clients.set(k, entry);
        proof {
            assert(is_first_saved_index(w.saved_clients, key@, k as int));
            let chosen = choose|j: int| is_first_saved_index(w.saved_clients, key@, j);
            assert(chosen == k as int) by {
                if chosen < k as int { assert(w.saved_clients[chosen].hardware_address != key@); }
                else if chosen > k as int { assert(w.saved_clients[k as int].hardware_address != key@); }
            }
            assert(saved_views(clients@) =~= w.saved_clients.update(k as int, labelled_as(w.saved_clients[k as int], name@)));
        }
        let ghost changed = saved_views(clients@);
        let sorted = sort_saved_clients(clients);
        let ghost sorted_view = saved_views(sorted@);
        assert(is_label_sorting(sorted_view, changed));
        match self.commit_saved_clients(sorted) {
            Err(f) => {
                let r = Err(f);
                proof {
                    assert(is_commit(o, w, sorted_view, self.snapshot@, self.environment@, Err::<(), OperationFailure>(f)));
                    assert(is_committed_change(o, w, sorted_view, renamed(o.client_evidence, key@, name@), self.snapshot@, self.environment@, r));
                }
                r
            },
            Ok(()) => {
                let ghost m = self.snapshot@;
                self.bump();
                self.publish_saved_clients();
                self.relabel_evidence(&key, &name, None);
                self.sort_evidence();
                let r = Ok(self.snapshot.copied());
                proof {
                    assert(is_commit(o, w, sorted_view, m, self.environment@, Ok::<(), OperationFailure>(())));
                    assert(is_committed_change(o, w, sorted_view, renamed(o.client_evidence, key@, name@), self.snapshot@, self.environment@, r));
                }
                r
            },
        }
    }

    /// Moves a saved label to a new, currently observed hardware address
    /// (for example after the client randomized its address), once confirmed.
    pub fn reassociate_saved_client(&mut self, previous_hardware_address: &str, new_hardware_address: &str, confirmed: bool) -> (r: Result<ApplicationSnapshot, OperationFailure>)
        ensures
            is_reassociate_outcome(old(self).state(), old(self).world(), previous_hardware_address@, new_hardware_address@, confirmed,
                final(self).state(), final(self).world(), r),
    {
        if !confirmed {
            return Err(failures::reassociation_confirmation_failure());
        }
        let previous = ascii_lowercase(previous_hardware_address);
        let new = ascii_lowercase(new_hardware_address);
        let observed = match self.find_evidence_index(&new) {
            Some(k) => {
                proof { self.lemma_first_evidence(new@, k as int); }
                self.snapshot.client_evidence[k].copied()
            },
            None => {
                proof { self.lemma_no_evidence(new@); }
                return Err(failures::reassociation_requires_observation_failure());
            },
        };
        if find_saved(&self.environment.saved_clients, &new).is_some() {
            return Err(failures::saved_client_exists_failure());
        }
        let k = match find_saved(&self.environment.saved_clients, &previous) {
            Some(k) => k,
            None => return Err(failures::saved_client_not_found_failure()),
        };
        let ghost o = self.snapshot@;
        let ghost w = self.environment@;
        let now = self.environment.current_time();
        let mut clients = copy_saved_clients(&self.environment.saved_clients);
        let mut entry = clients[k].copied();
        entry.hardware_address = new.clone();
        entry.last_observed_at = now;
        entry.addresses = observed.addresses;
        let label = entry.label.clone();
        clients.set(k, entry);
        let ghost changed = saved_views(clients@);
        let ghost e = reassociated(o.client_evidence, previous@, new@, label@);
        proof {
            assert(is_first_saved_index(w.saved_clients, previous@, k as int));
            let chosen = choose|j: int| is_first_saved_index(w.saved_clients, previous@, j);
            assert(chosen == k as int) by {
                if chosen < k as int { assert(w.saved_clients[chosen].hardware_address != previous@); }
                else if chosen > k as int { assert(w.saved_clients[k as int].hardware_address != previous@); }
            }
            assert(changed =~= w.saved_clients.update(k as int, saved_entry(w.saved_clients[k as int].label, new@, now, observed@.addresses)));
        }
        match self.commit_saved_clients(clients) {
            Err(f) => {
                let r = Err(f);
                proof {
                    assert(is_commit(o, w, changed, self.snapshot@, self.environment@, Err::<(), OperationFailure>(f)));
                    assert(is_committed_change(o, w, changed, e, self.snapshot@, self.environment@, r));
                }
                r
            },
            Ok(()) => {
                let ghost m = self.snapshot@;
                self.bump();
                self.publish_saved_clients();
                let ghost before = self.snapshot@.client_evidence;
                let mut out: Vec<ClientEvidence> = Vec::new();
                for i in 0..self.snapshot.client_evidence.len()
                    invariant
                        before == evidence_views(self.snapshot.client_evidence@),
                        out@.len() == i,
                        forall|j: int| 0 <= j < i ==> (#[trigger] out@[j])@ == reassociated(before, previous@, new@, label@)[j],
                {
                    let mut x = self.snapshot.client_evidence[i].copied();
                    if x.hardware_address == previous {
                        x.display_name = text("Unlabeled client");
                        x.saved = false;
                    } else if x.hardware_address == new {
                        x.display_name = label.clone();
                        x.saved = true;
                    }
                    out.push(x);
                }
                self.snapshot.client_evidence = out;
                assert(evidence_views(self.snapshot.client_evidence@) =~= e);
                self.sort_evidence();
                let r = Ok(self.snapshot.copied());
                proof {
                    assert(is_commit(o, w, changed, m, self.environment@, Ok::<(), OperationFailure>(())));
                    assert(is_committed_change(o, w, changed, e, self.snapshot@, self.environment@, r));
                }
                r
            },
        }
    }

    /// Forgets the saved client of a hardware address; current evidence
    /// stays, unlabeled.
    pub fn forget_saved_client(&mut self, hardware_address: &str) -> (r: Result<ApplicationSnapshot, OperationFailure>)
        ensures
            is_committed_change(old(self).state(), old(self).world(),
                without_hardware(old(self).world().saved_clients, hardware_key(hardware_address@)),
                relabelled(old(self).state().client_evidence, hardware_key(hardware_address@), "Unlabeled client"@, false),
                final(self).state(), final(self).world(), r),
    {
        let key = ascii_lowercase(hardware_address);
        let clients = remove_saved(&self.environment.saved_clients, &key);
        let ghost changed = saved_views(clients@);
        let ghost o = self.snapshot@;
        let ghost w = self.environment@;
        let unlabeled = text("Unlabeled client");
        let ghost e = relabelled(o.client_evidence, key@, unlabeled@, false);
        match self.commit_saved_clients(clients) {
            Err(f) => {
                let r = Err(f);
                proof {
                    assert(is_commit(o, w, changed, self.snapshot@, self.environment@, Err::<(), OperationFailure>(f)));
                    assert(is_committed_change(o, w, changed, e, self.snapshot@, self.environment@, r));
                }
                r
            },
            Ok(()) => {
                let ghost m = self.snapshot@;
                self.bump();
                self.publish_saved_clients();
                self.relabel_evidence(&key, &unlabeled, Some(false));
                self.sort_evidence();
                let r = Ok(self.snapshot.copied());
                proof {
                    assert(is_commit(o, w, changed, m, self.environment@, Ok::<(), OperationFailure>(())));
                    assert(is_committed_change(o, w, changed, e, self.snapshot@, self.environment@, r));
                }
                r
            },
        }
    }

    /// Removes every saved client, once confirmed; current evidence stays,
    /// unlabeled.
    pub fn clear_saved_clients(&mut self, confirmed: bool) -> (r: Result<ApplicationSnapshot, OperationFailure>)
        ensures
            !confirmed ==> (r matches Err(f) && failures::is_clear_confirmation(f))
                && final(self).state() == old(self).state() && final(self).world() == old(self).world(),
            confirmed ==> is_committed_change(old(self).state(), old(self).world(), Seq::empty(),
                all_unlabelled(old(self).state().client_evidence), final(self).state(), final(self).world(), r),
    {
        if !confirmed {
            return Err(failures::clear_confirmation_failure());
        }
        let ghost o = self.snapshot@;
        let ghost w = self.environment@;
        let ghost e = all_unlabelled(o.client_evidence);
        let empty: Vec<SavedClient> = Vec::new();
        assert(saved_views(empty@) =~= Seq::<SavedClientView>::empty());
        match self.commit_saved_clients(empty) {
            Err(f) => {
                let r = Err(f);
                proof {
                    assert(is_commit(o, w, Seq::empty(), self.snapshot@, self.environment@, Err::<(), OperationFailure>(f)));
                    assert(is_committed_change(o, w, Seq::empty(), e, self.snapshot@, self.environment@, r));
                }
                r
            },
            Ok(()) => {
                let ghost m = self.snapshot@;
                self.bump();
                self.publish_saved_clients();
                self.unlabel_all_evidence();
                self.sort_evidence();
                let r = Ok(self.snapshot.copied());
                proof {
                    assert(is_commit(o, w, Seq::empty(), m, self.environment@, Ok::<(), OperationFailure>(())));
                    assert(is_committed_change(o, w, Seq::empty(), e, self.snapshot@, self.environment@, r));
                }
                r
            },
        }
    }

    /// Replaces unreadable or unsupported saved-client storage with an
    /// empty list, once confirmed, and enables saved-client changes again.
    pub fn reset_saved_clients(&mut self, confirmed: bool) -> (r: Result<ApplicationSnapshot, OperationFailure>)
        ensures
            !confirmed ==> (r matches Err(f) && failures::is_reset_confirmation(f))
                && final(self).state() == old(self).state() && final(self).world() == old(self).world(),
            confirmed && old(self).world().saved_clients_storage == SavedClientStorage::Memory ==>
                (r matches Err(f) && failures::is_storage_unavailable(f))
                && final(self).state() == old(self).state() && final(self).world() == old(self).world(),
            confirmed && old(self).world().saved_clients_storage == SavedClientStorage::Unwritable ==>
                (r matches Err(f) && failures::is_storage_write(f))
                && final(self).state() == old(self).state() && final(self).world() == old(self).world(),
            confirmed && old(self).world().saved_clients_storage == SavedClientStorage::Durable ==> {
                &&& r matches Ok(s) && s@ == final(self).state()
                &&& final(self).world() == (EnvironmentView { saved_clients: Seq::empty(), saved_clients_failure: None, ..old(self).world() })
                &&& is_display_sorting(final(self).state().client_evidence, all_unlabelled(old(self).state().client_evidence))
                &&& final(self).state() == (ApplicationSnapshotView {
                    revision: bumped(old(self).state().revision),
                    saved_clients: Seq::empty(),
                    saved_clients_available: true,
                    saved_clients_failure: None,
                    client_evidence: final(self).state().client_evidence,
                    ..old(self).state()
                })
            },
    {
        if !confirmed {
            return Err(failures::reset_confirmation_failure());
        }
        match self.environment.saved_clients_storage {
            SavedClientStorage::Memory => return Err(failures::storage_unavailable_failure()),
            SavedClientStorage::Unwritable => return Err(failures::storage_write_failure()),
            SavedClientStorage::Durable => {},
        }
        self.environment.saved_clients = Vec::new();
        self.environment.saved_clients_failure = None;
        assert(saved_views(self.environment.saved_clients@) =~= Seq::<SavedClientView>::empty());
        self.bump();
        self.snapshot.saved_clients = Vec::new();
        assert(saved_views(self.snapshot.saved_clients@) =~= Seq::<SavedClientView>::empty());
        self.snapshot.saved_clients_available = true;
        self.snapshot.saved_clients_failure = None;
        self.unlabel_all_evidence();
        self.sort_evidence();
        Ok(self.snapshot.copied())
    }
}


/// The device's station list as observations without addresses.
pub open spec fn connected_observations(w: EnvironmentView) -> Seq<ClientNetworkObservation> {
    w.connected_clients.map_values(|h: String| ClientNetworkObservation { hardware_address: h, address: None })
}

/// Storing the saved clients `refreshed` from evidence, when anything
/// `changed`: a recorded failure or unwritable storage refuses it (the
/// refusal is recorded), other storage accepts it.
pub open spec fn is_observation_store(
    w: EnvironmentView,
    refreshed: Seq<SavedClientView>,
    changed: bool,
    v: EnvironmentView,
    refused: Option<OperationFailure>,
) -> bool {
    if !changed {
        v == w && refused is None
    } else {
        match w.saved_clients_failure {
            Some(f) => refused == Some(f) && v == w,
            None => if w.saved_clients_storage == SavedClientStorage::Unwritable {
                (refused matches Some(f) && failures::is_storage_write(f))
                    && v == (EnvironmentView { saved_clients_failure: refused, ..w })
            } else {
                refused is None && v == (EnvironmentView { saved_clients: refreshed, ..w })
            },
        }
    }
}

/// Every saved client brought up to date with the evidence `e` at `now`.
pub open spec fn refreshed_saved_clients(saved: Seq<SavedClientView>, e: Seq<ClientEvidenceView>, now: u64) -> Seq<SavedClientView> {
    saved.map_values(|c: SavedClientView| refreshed_saved_client(c, e, now))
}

/// Bringing the saved clients up to date with `e` at `now` changes one.
pub open spec fn saved_clients_change(saved: Seq<SavedClientView>, e: Seq<ClientEvidenceView>, now: u64) -> bool {
    exists|i: int| 0 <= i < saved.len() && saved_client_changes(saved[i], e, now)
}

/// Refreshing client evidence in `o` and `w` where observations group into
/// `g`, shown as `e`, at time `now`, gives `n` and `v`.
pub open spec fn is_client_refresh(
    o: ApplicationSnapshotView,
    w: EnvironmentView,
    g: Seq<ClientEvidenceView>,
    e: Seq<ClientEvidenceView>,
    now: u64,
    n: ApplicationSnapshotView,
    v: EnvironmentView,
) -> bool {
    let read = EnvironmentView { telemetry_read_count: counted(w.telemetry_read_count), ..w };
    let refreshed = refreshed_saved_clients(w.saved_clients, e, now);
    let changed = saved_clients_change(w.saved_clients, e, now);
    let connected = count_kind(e, ClientEvidenceKind::Connected);
    &&& is_grouped_evidence(connected_observations(w) + w.recent_clients, w.connected_clients.len() as int, w.saved_clients, g)
    &&& is_display_sorting(e, g)
    &&& (w.current_time > 0 ==> now == w.current_time)
    &&& is_client_status(n.clients, connected, (e.len() - connected) as nat)
    &&& exists|refused: Option<OperationFailure>| {
        &&& #[trigger] is_observation_store(read, refreshed, changed, v, refused)
        &&& n == ApplicationSnapshotView {
            revision: bumped(o.revision),
            observed_status_at: Some(now),
            client_evidence: e,
            saved_clients: v.saved_clients,
            saved_clients_available: if refused is Some { false } else { o.saved_clients_available },
            saved_clients_failure: if refused is Some { refused } else { o.saved_clients_failure },
            clients: n.clients,
            ..o
        }
    }
}

/// The outcome of refreshing client evidence: nothing is read while the
/// telemetry view is hidden; otherwise the selected interface's observations
/// are read once and published.
pub open spec fn is_client_evidence_outcome(
    o: ApplicationSnapshotView,
    w: EnvironmentView,
    telemetry_visible: bool,
    n: ApplicationSnapshotView,
    v: EnvironmentView,
    r: Result<ApplicationSnapshot, OperationFailure>,
) -> bool {
    if !telemetry_visible {
        (r matches Ok(s) && s@ == o) && n == o && v == w
    } else {
        match selected_interface_of(o) {
            None => (r matches Err(f) && is_interface_failure(o, f)) && n == o && v == w,
            Some(_) => {
                &&& r matches Ok(s) && s@ == n
                &&& exists|g: Seq<ClientEvidenceView>, e: Seq<ClientEvidenceView>, now: u64|
                    #[trigger] is_client_refresh(o, w, g, e, now, n, v)
            },
        }
    }
}

impl Application {
    /// Refreshes client evidence from the selected interface, while the
    /// telemetry view is visible: observations are filtered and grouped,
    /// named from saved labels and ordered for display; observed saved
    /// clients are brought up to date and stored.
    pub fn refresh_client_evidence(&mut self, telemetry_visible: bool) -> (r: Result<ApplicationSnapshot, OperationFailure>)
        requires
            old(self).world().connected_clients.len() + old(self).world().recent_clients.len() <= usize::MAX,
        ensures
            is_client_evidence_outcome(old(self).state(), old(self).world(), telemetry_visible, final(self).state(), final(self).world(), r),
    {
        if !telemetry_visible {
            return Ok(self.snapshot.copied());
        }
        let interface_name = self.selected_interface()?;
        let ghost o = self.snapshot@;
        let ghost w = self.environment@;
        let (connected, recent) = self.environment.read_client_evidence(&interface_name);
        let ghost read = self.environment@;
        assert(connected@ == connected_observations(w));
        let grouped = group_client_observations(&connected, &recent, &self.environment.saved_clients);
        let ghost g = evidence_views(grouped@);
        let evidence = sort_client_evidence(grouped);
        let ghost e = evidence_views(evidence@);
        let total = evidence.len();
        assert(usize::MAX <= u64::MAX);
        let connected_count = count_connected(&evidence);
        let recent_count = (total as u64) - connected_count;
        let now = self.environment.current_time();
        self.bump();
        self.snapshot.observed_status_at = Some(now);
        let (refreshed, changed) = refresh_saved_observations(&self.environment.saved_clients, &evidence, now);
        let ghost refreshed_view = saved_views(refreshed@);
        proof {
            let sv = self.environment.saved_clients@;
            assert(changed == exists|i: int| 0 <= i < w.saved_clients.len() && saved_client_changes(w.saved_clients[i], e, now)) by {
                if changed {
                    let i = choose|i: int| 0 <= i < sv.len() && saved_client_changes(sv[i]@, e, now);
                    assert(w.saved_clients[i] == sv[i]@);
                } else {
                    assert forall|i: int| 0 <= i < w.saved_clients.len() implies !saved_client_changes(w.saved_clients[i], e, now) by {
                        assert(w.saved_clients[i] == sv[i]@);
                    }
                }
            }
        }
        self.snapshot.client_evidence = evidence;
        let ghost mut refused: Option<OperationFailure> = None;
        if changed {
            match self.environment.persist_saved_clients(&refreshed) {
                Ok(()) => {
                    self.environment.saved_clients = refreshed;
                },
                Err(f) => {
                    proof { refused = Some(f); }
                    self.environment.saved_clients_failure = Some(f.copied());
                    self.snapshot.saved_clients_available = false;
                    self.snapshot.saved_clients_failure = Some(f);
                },
            }
        }
        self.publish_saved_clients();
        self.snapshot.clients = client_status(connected_count, recent_count);
        proof {
            assert(is_observation_store(read, refreshed_view, changed, self.environment@, refused));
            let n = self.snapshot@;
            let v = self.environment@;
            assert(is_grouped_evidence(connected_observations(w) + w.recent_clients, w.connected_clients.len() as int, w.saved_clients, g));
            assert(is_display_sorting(e, g));
            assert(is_client_status(n.clients, count_kind(e, ClientEvidenceKind::Connected), (e.len() - count_kind(e, ClientEvidenceKind::Connected)) as nat));
            assert(refreshed_view == refreshed_saved_clients(w.saved_clients, e, now));
            assert(changed == saved_clients_change(w.saved_clients, e, now));
            assert(n == ApplicationSnapshotView {
                revision: bumped(o.revision),
                observed_status_at: Some(now),
                client_evidence: e,
                saved_clients: v.saved_clients,
                saved_clients_available: if refused is Some { false } else { o.saved_clients_available },
                saved_clients_failure: if refused is Some { refused } else { o.saved_clients_failure },
                clients: n.clients,
                ..o
            });
            assert(is_client_refresh(o, w, g, e, now, self.snapshot@, self.environment@));
        }
        Ok(self.snapshot.copied())
    }
}


/// The snapshot after a failed step is remembered as the latest failure.
pub open spec fn remembered(s: ApplicationSnapshotView, r: Result<ApplicationSnapshot, OperationFailure>) -> ApplicationSnapshotView {
    match r {
        Err(f) => ApplicationSnapshotView { revision: bumped(s.revision), last_failure: Some(f), ..s },
        Ok(_) => s,
    }
}

/// One operational refresh from `o` and `w`: the candidate list gives `a`;
/// with a selection, host sharing is inspected (`b`, `rb`) and the identity
/// verified (`c`, `rc`), each failure remembered; the refresh is stamped `now`.
pub open spec fn is_status_refresh(
    o: ApplicationSnapshotView,
    w: EnvironmentView,
    a: ApplicationSnapshotView,
    b: ApplicationSnapshotView,
    rb: Result<ApplicationSnapshot, OperationFailure>,
    c: ApplicationSnapshotView,
    rc: Result<ApplicationSnapshot, OperationFailure>,
    now: u64,
    n: ApplicationSnapshotView,
    v: EnvironmentView,
) -> bool {
    &&& is_refreshed_candidates(o, w.candidates, a)
    &&& (w.current_time > 0 ==> now == w.current_time)
    &&& if a.selected_candidate_id is None {
        n == (ApplicationSnapshotView { observed_status_at: Some(now), ..a }) && v == w
    } else {
        &&& is_inspection_outcome(a, w, b, rb)
        &&& is_verification_outcome(remembered(b, rb), w, c, v, rc)
        &&& n == ApplicationSnapshotView { observed_status_at: Some(now), ..remembered(c, rc) }
    }
}

impl Application {
    /// Refreshes what can be observed without reading client telemetry or
    /// radio configuration: the candidate list, and for a selected candidate
    /// its host sharing and identity. Failures of either are remembered and
    /// do not stop the refresh.
    pub fn refresh_operational_status(&mut self) -> (r: Result<ApplicationSnapshot, OperationFailure>)
        ensures
            r matches Ok(s) && s@ == final(self).state(),
            exists|a: ApplicationSnapshotView, b: ApplicationSnapshotView, rb: Result<ApplicationSnapshot, OperationFailure>,
                c: ApplicationSnapshotView, rc: Result<ApplicationSnapshot, OperationFailure>, now: u64|
                #[trigger] is_status_refresh(old(self).state(), old(self).world(), a, b, rb, c, rc, now, final(self).state(), final(self).world()),
            final(self).world().telemetry_read_count == old(self).world().telemetry_read_count,
            final(self).world().configuration_read_count == old(self).world().configuration_read_count,
    {
        let ghost o = self.snapshot@;
        let ghost w = self.environment@;
        let _ = self.refresh_candidates();
        let ghost a = self.snapshot@;
        if self.snapshot.selected_candidate_id.is_none() {
            let now = self.environment.current_time();
            self.snapshot.observed_status_at = Some(now);
            proof {
                assert(is_status_refresh(o, w, a, a, Ok(self.snapshot), a, Ok(self.snapshot), now, self.snapshot@, self.environment@));
            }
            return Ok(self.snapshot.copied());
        }
        let rb = self.inspect_host_sharing();
        let ghost b = self.snapshot@;
        match &rb {
            Err(f) => self.remember_failure(f),
            Ok(_) => {},
        }
        let rc = self.verify_selected_puppis();
        let ghost c = self.snapshot@;
        match &rc {
            Err(f) => self.remember_failure(f),
            Ok(_) => {},
        }
        let now = self.environment.current_time();
        self.snapshot.observed_status_at = Some(now);
        proof {
            assert(is_status_refresh(o, w, a, b, rb, c, rc, now, self.snapshot@, self.environment@));
        }
        Ok(self.snapshot.copied())
    }
}


impl Application {
    /// The diagnostics content of the published snapshot, with every
    /// identifier replaced by an alias.
    pub fn preview_diagnostics(&self) -> (r: crate::diagnostics::Diagnostics)
        ensures
            crate::diagnostics::is_diagnostics_of(r, self.state()),
    {
        crate::diagnostics::diagnostics(&self.snapshot)
    }
}

/// The outcome of enabling managed sharing from snapshot `o` and environment `w`.
pub open spec fn is_enable_sharing_outcome(o: ApplicationSnapshotView, w: EnvironmentView, n: ApplicationSnapshotView, v: EnvironmentView, r: Result<ApplicationSnapshot, OperationFailure>) -> bool {
    match selected_interface_of(o) {
        None => (r matches Err(f) && is_interface_failure(o, f))
            && n == o && v == w,
        Some(i) => match w.host_sharing {
            None => (r matches Err(f) && failures::is_network_state_unavailable(f))
                && n == o && v == w,
            Some(h) => if h.subnet_conflict {
                (r matches Err(f) && failures::is_subnet_conflict(f))
                    && n == o && v == w
            } else if !h.upstream_available {
                (r matches Err(f) && failures::is_upstream_unavailable(f))
                    && n == o && v == w
            } else {
                is_enable_outcome(o, w, i@, h, n, v, r)
            },
        },
    }
}

/// The outcome of disabling managed sharing from snapshot `o` and environment `w`.
pub open spec fn is_disable_sharing_outcome(o: ApplicationSnapshotView, w: EnvironmentView, n: ApplicationSnapshotView, v: EnvironmentView, r: Result<ApplicationSnapshot, OperationFailure>) -> bool {
    match selected_interface_of(o) {
        None => (r matches Err(f) && is_interface_failure(o, f))
            && n == o && v == w,
        Some(i) => is_profile_change_outcome(o, w,
            EnvironmentView {
                mutations: w.mutations.push("managed:disable:"@ + i@),
                actions: w.actions.push(SystemAction::DisableManaged),
                host_sharing: Some(crate::model::HostSharingObservation {
                    active: false,
                    autoconnect: false,
                    ..w.host_sharing->0
                }),
                ..w
            },
            n, v, r),
    }
}

/// The outcome of removing managed sharing from snapshot `o` and environment `w`.
pub open spec fn is_remove_sharing_outcome(o: ApplicationSnapshotView, w: EnvironmentView, n: ApplicationSnapshotView, v: EnvironmentView, r: Result<ApplicationSnapshot, OperationFailure>) -> bool {
    match selected_interface_of(o) {
        None => (r matches Err(f) && is_interface_failure(o, f))
            && n == o && v == w,
        Some(i) => is_profile_change_outcome(o, w,
            EnvironmentView {
                mutations: w.mutations.push("managed:remove:"@ + i@),
                actions: w.actions.push(SystemAction::RemoveManaged),
                host_sharing: Some(crate::model::HostSharingObservation {
                    profile_kind: crate::model::ProfileKind::Absent,
                    profile_name: None,
                    active: false,
                    ipv4_shared: false,
                    downstream_address: None,
                    autoconnect: false,
                    ..w.host_sharing->0
                }),
                ..w
            },
            n, v, r),
    }
}


impl Application {
    /// A copy of the application: the same snapshot and environment.
    pub fn copied(&self) -> (r: Application)
        ensures
            r.state() == self.state(),
            r.world() == self.world(),
    {
        Application { snapshot: self.snapshot.copied(), environment: self.environment.copied() }
    }
}

} // verus!
