use puppis_core::{
    Application, ClientEvidenceKind, ClientNetworkObservation, DeviceIdentity, InMemoryEnvironment,
    PuppisCandidate, QUALIFIED_FIRMWARE, RadioBand, RadioConfiguration, UsbLinkSpeed,
};

fn ready() -> Application {
    let environment = InMemoryEnvironment::with_candidates(vec![PuppisCandidate {
        id: "candidate-1".into(),
        interface_name: "enx001".into(),
        display_name: "USB network adapter (enx001)".into(),
        link_speed: UsbLinkSpeed::SuperSpeed,
    }])
    .with_identity(DeviceIdentity {
        model: "P1411".into(),
        firmware: QUALIFIED_FIRMWARE.into(),
        role_code: "1".into(),
    })
    .with_radio(
        RadioBand::FiveGhz,
        RadioConfiguration::fixture("five", "secret-five", "0", "CA", "160"),
    )
    .with_radio(
        RadioBand::TwoPointFourGhz,
        RadioConfiguration::fixture("two", "secret-two", "0", "CA", "40"),
    )
    .with_client_observations(
        vec!["aa:bb:cc:11:22:33".into()],
        vec!["aa:bb:cc:11:22:33".into(), "de:ad:be:ef:00:01".into()],
    );
    let mut app = Application::new(environment);
    app.refresh_candidates().unwrap();
    app.select_candidate("candidate-1").unwrap();
    app.verify_selected_puppis().unwrap();
    app
}

fn candidate() -> PuppisCandidate {
    PuppisCandidate {
        id: "candidate-1".into(),
        interface_name: "enx001".into(),
        display_name: "USB network adapter (enx001)".into(),
        link_speed: UsbLinkSpeed::SuperSpeed,
    }
}

#[test]
fn passive_observations_group_addresses_by_mac_without_inventing_a_name() {
    let environment = InMemoryEnvironment::with_candidates(vec![candidate()])
    .with_recent_client_observations(vec![
        ClientNetworkObservation::fixture("02:00:00:00:02:01", "192.168.137.20"),
        ClientNetworkObservation::fixture("02:00:00:00:02:01", "192.168.137.21"),
    ]);
    let mut app = Application::new(environment);
    app.refresh_candidates().unwrap();
    app.select_candidate("candidate-1").unwrap();

    let snapshot = app.refresh_client_evidence(true).unwrap();

    assert_eq!(snapshot.client_evidence.len(), 1);
    assert_eq!(snapshot.client_evidence[0].display_name, "Unlabeled client");
    assert_eq!(
        snapshot.client_evidence[0].hardware_address,
        "02:00:00:00:02:01"
    );
    assert_eq!(
        snapshot.client_evidence[0].addresses,
        ["192.168.137.20", "192.168.137.21"]
    );
    assert_eq!(
        snapshot.client_evidence[0].kind,
        ClientEvidenceKind::RecentlyObserved
    );
}

#[test]
fn passive_observations_exclude_host_broadcast_and_every_puppis_address() {
    let environment = InMemoryEnvironment::with_candidates(vec![candidate()])
    .with_recent_client_observations(vec![
        ClientNetworkObservation::fixture("00:11:22:33:44:55", "192.168.137.1"),
        ClientNetworkObservation::fixture("00:11:22:33:44:66", "192.168.137.255"),
        ClientNetworkObservation::fixture("02:00:00:00:01:01", "192.168.137.254"),
        ClientNetworkObservation::fixture("02:00:00:00:01:01", "192.168.137.10"),
        ClientNetworkObservation::fixture("02:00:00:00:02:01", "192.168.137.20"),
    ]);
    let mut app = Application::new(environment);
    app.refresh_candidates().unwrap();
    app.select_candidate("candidate-1").unwrap();

    let snapshot = app.refresh_client_evidence(true).unwrap();

    assert_eq!(snapshot.client_evidence.len(), 1);
    assert_eq!(
        snapshot.client_evidence[0].hardware_address,
        "02:00:00:00:02:01"
    );
}

#[test]
fn protocol_activity_is_connected_while_host_neighbors_are_only_recent() {
    let mut app = ready();
    let snapshot = app.refresh_client_evidence(true).unwrap();

    assert_eq!(snapshot.client_evidence.len(), 2);
    assert_eq!(
        snapshot.client_evidence[0].kind,
        ClientEvidenceKind::Connected
    );
    assert_eq!(
        snapshot.client_evidence[1].kind,
        ClientEvidenceKind::RecentlyObserved
    );
    assert_eq!(snapshot.client_evidence[0].alias, "client-1");
    assert_eq!(snapshot.client_evidence[1].alias, "client-2");
    let serialized = format!("{snapshot:?}");
    assert!(serialized.contains("aa:bb:cc"));
    assert!(serialized.contains("de:ad:be"));
    let diagnostics = format!("{:?}", app.preview_diagnostics());
    assert!(!diagnostics.contains("aa:bb:cc"));
    assert!(!diagnostics.contains("de:ad:be"));
}

#[test]
fn hidden_telemetry_does_not_poll_and_configuration_reads_remain_explicit() {
    let mut app = ready();

    app.refresh_client_evidence(false).unwrap();
    assert_eq!(app.environment().telemetry_reads(), 0);
    app.read_radio_settings().unwrap();
    assert_eq!(app.environment().telemetry_reads(), 0);
    app.refresh_client_evidence(true).unwrap();
    assert_eq!(app.environment().telemetry_reads(), 1);
}

#[test]
fn slow_operational_refresh_never_invokes_configuration_or_client_telemetry_getters() {
    let mut app = ready();

    app.refresh_operational_status().unwrap();

    assert_eq!(app.environment().configuration_reads(), 0);
    assert_eq!(app.environment().telemetry_reads(), 0);
}

#[test]
fn client_status_counts_connected_and_recent_clients() {
    let mut app = ready();

    let snapshot = app.refresh_client_evidence(true).unwrap();

    assert_eq!(snapshot.clients.summary, "1 connected client");
    assert_eq!(
        snapshot.clients.guidance.as_deref(),
        Some("1 additional client was recently observed by the host.")
    );
}

#[test]
fn only_recent_clients_are_not_claimed_as_connected() {
    let environment = InMemoryEnvironment::with_candidates(vec![candidate()])
        .with_recent_client_observations(vec![
            ClientNetworkObservation::fixture("02:00:00:00:02:01", "192.168.137.20"),
            ClientNetworkObservation::fixture("02:00:00:00:02:02", "192.168.137.21"),
        ]);
    let mut app = Application::new(environment);
    app.refresh_candidates().unwrap();
    app.select_candidate("candidate-1").unwrap();

    let snapshot = app.refresh_client_evidence(true).unwrap();

    assert_eq!(snapshot.clients.summary, "2 recently observed clients");
    assert_eq!(
        snapshot.clients.guidance.as_deref(),
        Some("Host evidence does not prove a current wireless connection.")
    );
    assert!(snapshot.observed_status_at.is_some());
}

#[test]
fn no_evidence_without_observations() {
    let mut app = Application::new(InMemoryEnvironment::with_candidates(vec![candidate()]));
    app.refresh_candidates().unwrap();
    app.select_candidate("candidate-1").unwrap();

    let snapshot = app.refresh_client_evidence(true).unwrap();

    assert!(snapshot.client_evidence.is_empty());
    assert_eq!(snapshot.clients.summary, "No client evidence");
}

#[test]
fn client_evidence_needs_a_candidate() {
    let mut app = Application::new(InMemoryEnvironment::default());

    let failure = app.refresh_client_evidence(true).unwrap_err();

    assert_eq!(failure.code, "candidate_required");
    assert_eq!(app.environment().telemetry_reads(), 0);
}
