use puppis_core::sharing::{inspect, ActiveProfile, NetworkFacts, ProfileSettings, MANAGED_UUID};
use puppis_core::{
    Application, AuthorizationState, HostSharingObservation, InMemoryEnvironment, ProfileKind,
    PuppisCandidate, UsbLinkSpeed,
};

fn app_with_host(observation: HostSharingObservation) -> Application {
    let environment = InMemoryEnvironment::with_candidates(vec![PuppisCandidate {
        id: "candidate-1".into(),
        interface_name: "enx001".into(),
        display_name: "USB network adapter (enx001)".into(),
        link_speed: UsbLinkSpeed::SuperSpeed,
    }])
    .with_host_sharing(observation);
    let mut app = Application::new(environment);
    app.refresh_candidates().unwrap();
    app.select_candidate("candidate-1").unwrap();
    app
}

#[test]
fn working_external_sharing_is_reported_but_never_claimed() {
    let mut app = app_with_host(HostSharingObservation {
        upstream_available: true,
        upstream_description: Some("Host default route".into()),
        profile_kind: ProfileKind::External,
        profile_name: Some("Wired connection 2".into()),
        active: true,
        ipv4_shared: true,
        downstream_address: Some("192.168.137.1/24".into()),
        ipv6_disabled: false,
        autoconnect: false,
        subnet_conflict: false,
        authorization: AuthorizationState::Prompt,
    });

    let snapshot = app.inspect_host_sharing().unwrap();

    assert_eq!(
        snapshot.sharing.summary,
        "Host sharing works through an external profile"
    );
    assert_eq!(
        snapshot.host_sharing.unwrap().profile_kind,
        ProfileKind::External
    );
    assert!(app.environment().recorded_mutations().is_empty());
}

#[test]
fn subnet_conflict_and_missing_upstream_are_independent_actionable_evidence() {
    let mut app = app_with_host(HostSharingObservation {
        upstream_available: false,
        upstream_description: None,
        profile_kind: ProfileKind::Absent,
        profile_name: None,
        active: false,
        ipv4_shared: false,
        downstream_address: None,
        ipv6_disabled: true,
        autoconnect: false,
        subnet_conflict: true,
        authorization: AuthorizationState::Denied,
    });

    let snapshot = app.inspect_host_sharing().unwrap();

    assert_eq!(snapshot.sharing.summary, "Puppis subnet conflict detected");
    let host = snapshot.host_sharing.unwrap();
    assert!(!host.upstream_available);
    assert!(host.subnet_conflict);
    assert_eq!(host.authorization, AuthorizationState::Denied);
    assert_eq!(snapshot.protocol.summary, "Candidate not yet verified");
}

#[test]
fn network_facts_of_the_owned_profile_give_managed_sharing() {
    let facts = NetworkFacts {
        primary_connection: true,
        active_profile: Some(ActiveProfile {
            id: Some("Puppis S1 Manager".into()),
            settings: Some(ProfileSettings {
                uuid: Some(MANAGED_UUID.into()),
                ipv4_method: Some("shared".into()),
                ipv6_method: Some("disabled".into()),
                autoconnect: Some(1),
            }),
            first_address: Some(("192.168.137.1".into(), 24)),
        }),
        subnet_conflict: false,
    };

    let observation = inspect(&facts);

    assert_eq!(observation.profile_kind, ProfileKind::Managed);
    assert!(observation.active && observation.ipv4_shared && observation.ipv6_disabled && observation.autoconnect);
    assert_eq!(observation.downstream_address.as_deref(), Some("192.168.137.1/24"));
    assert_eq!(observation.upstream_description.as_deref(), Some("Host effective default route"));
    assert_eq!(observation.authorization, AuthorizationState::Prompt);
}

#[test]
fn an_unreadable_active_profile_is_external_and_unnamed() {
    let facts = NetworkFacts {
        primary_connection: false,
        active_profile: Some(ActiveProfile { id: None, settings: None, first_address: None }),
        subnet_conflict: true,
    };

    let observation = inspect(&facts);

    assert_eq!(observation.profile_kind, ProfileKind::External);
    assert_eq!(observation.profile_name.as_deref(), Some("Unnamed profile"));
    assert!(observation.active && !observation.ipv4_shared);
    assert!(!observation.upstream_available && observation.upstream_description.is_none());
    assert!(observation.subnet_conflict);
}

#[test]
fn an_inactive_interface_has_no_profile() {
    let observation = inspect(&NetworkFacts { primary_connection: true, active_profile: None, subnet_conflict: false });

    assert_eq!(observation.profile_kind, ProfileKind::Absent);
    assert!(observation.profile_name.is_none() && !observation.active);
    assert!(observation.downstream_address.is_none());
}
