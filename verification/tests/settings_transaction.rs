use puppis_core::{
    Application, DeviceIdentity, InMemoryEnvironment, PuppisCandidate, QUALIFIED_FIRMWARE,
    RadioBand, RadioConfiguration, RadioWriteEffect, UsbLinkSpeed,
};

fn environment(effects: Vec<RadioWriteEffect>) -> InMemoryEnvironment {
    InMemoryEnvironment::with_candidates(vec![PuppisCandidate {
        id: "candidate-1".into(),
        interface_name: "enx001".into(),
        display_name: "USB network adapter (enx001)".into(),
        link_speed: UsbLinkSpeed::SuperSpeed,
    }])
    .with_identity(DeviceIdentity {
        model: "P1411".into(),
        firmware: QUALIFIED_FIRMWARE.into(),
        role_code: "1".into(),
    })
    .with_radio(
        RadioBand::FiveGhz,
        RadioConfiguration::fixture("original", "private-value", "0", "CA", "160"),
    )
    .with_radio(
        RadioBand::TwoPointFourGhz,
        RadioConfiguration::fixture("original24", "private-24", "0", "CA", "40"),
    )
    .with_radio_write_effects(effects)
}

fn ready_app(environment: InMemoryEnvironment) -> Application {
    let mut app = Application::new(environment);
    app.refresh_candidates().unwrap();
    app.verify_selected_puppis().unwrap();
    app.read_radio_settings().unwrap();
    app
}

#[test]
fn five_ghz_ssid_succeeds_only_after_complete_readback_verification() {
    let environment = environment(vec![RadioWriteEffect::ApplyRequested]);
    let mut app = ready_app(environment);

    let snapshot = app
        .set_radio_ssid(RadioBand::FiveGhz, "NewNetwork")
        .unwrap();

    assert_eq!(
        snapshot
            .radios
            .iter()
            .find(|radio| radio.band == RadioBand::FiveGhz)
            .unwrap()
            .ssid,
        "NewNetwork"
    );
    assert!(!snapshot.recovery_required);
    assert!(snapshot.active_operation.is_none());
    assert!(!app.environment().interrupted_marker());
    assert!(
        app.environment()
            .recorded_mutations()
            .iter()
            .all(|entry| !entry.contains("private-value"))
    );
}

#[test]
fn mismatched_readback_restores_and_verifies_the_complete_original_object() {
    let mismatch = RadioConfiguration::fixture("unexpected", "private-value", "36", "CA", "160");
    let environment = environment(vec![
        RadioWriteEffect::Apply(mismatch),
        RadioWriteEffect::ApplyRequested,
    ]);
    let mut app = ready_app(environment);

    let error = app
        .set_radio_ssid(RadioBand::FiveGhz, "NewNetwork")
        .unwrap_err();

    assert_eq!(error.code, "transaction_rolled_back");
    assert_eq!(app.environment().radio(RadioBand::FiveGhz).ssid, "original");
    assert!(!app.snapshot().recovery_required);
    assert!(!app.environment().interrupted_marker());
}

#[test]
fn unverifiable_rollback_enters_recovery_required_and_blocks_more_mutations() {
    let mismatch = RadioConfiguration::fixture("unexpected", "private-value", "36", "CA", "160");
    let environment = environment(vec![
        RadioWriteEffect::Apply(mismatch),
        RadioWriteEffect::Fail,
    ]);
    let mut app = ready_app(environment);

    let error = app
        .set_radio_ssid(RadioBand::FiveGhz, "NewNetwork")
        .unwrap_err();

    assert_eq!(error.code, "recovery_required");
    assert!(app.snapshot().recovery_required);
    assert!(app.environment().interrupted_marker());
    assert_eq!(
        app.set_radio_ssid(RadioBand::FiveGhz, "AnotherName")
            .unwrap_err()
            .code,
        "recovery_required"
    );
    assert!(
        format!("{:?}", app.preview_diagnostics())
            .contains("Recovery required")
    );

    let reconciled = app.accept_current_configuration_as_baseline().unwrap();
    assert!(!reconciled.recovery_required);
    assert!(!app.environment().interrupted_marker());
    assert_eq!(
        reconciled.configuration.summary,
        "Current device state accepted as the recovery baseline"
    );
}

#[test]
fn a_refused_write_reports_that_nothing_was_applied() {
    let environment = environment(vec![RadioWriteEffect::Fail]);
    let mut app = ready_app(environment);

    let error = app.set_radio_ssid(RadioBand::FiveGhz, "NewNetwork").unwrap_err();

    assert_eq!(error.code, "transaction_not_applied");
    assert_eq!(app.environment().radio(RadioBand::FiveGhz).ssid, "original");
    assert!(!app.environment().interrupted_marker());
}

#[test]
fn an_interrupted_transaction_requires_recovery_at_start() {
    let app = Application::new(environment(Vec::new()).with_interrupted_marker(true));

    let snapshot = app.snapshot();

    assert!(snapshot.recovery_required);
    assert_eq!(snapshot.configuration.summary, "Recovery required");
}

#[test]
fn a_baseline_is_refused_while_no_recovery_is_required() {
    let mut app = ready_app(environment(Vec::new()));

    assert_eq!(
        app.accept_current_configuration_as_baseline().unwrap_err().code,
        "recovery_not_required"
    );
}
