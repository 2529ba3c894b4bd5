use puppis_core::{
    Application, DeviceIdentity, DeviceRole, InMemoryEnvironment, PuppisCandidate,
    QUALIFIED_FIRMWARE, RoleWriteEffect, UsbLinkSpeed,
};

fn ready(effects: Vec<RoleWriteEffect>) -> Application {
    let environment = InMemoryEnvironment::with_candidates(vec![PuppisCandidate {
        id: "candidate-1".into(),
        interface_name: "enx001".into(),
        display_name: "USB network adapter (enx001)".into(),
        link_speed: UsbLinkSpeed::SuperSpeed,
    }])
    .with_identity(DeviceIdentity {
        model: "P1411".into(),
        firmware: QUALIFIED_FIRMWARE.into(),
        role_code: "1".into(),
    })
    .with_role_write_effects(effects);
    let mut app = Application::new(environment);
    app.refresh_candidates().unwrap();
    app.verify_selected_puppis().unwrap();
    app
}

#[test]
fn confirmed_supported_role_change_is_independently_verified() {
    let mut app = ready(vec![RoleWriteEffect::ApplyRequested]);

    assert_eq!(
        app.set_device_role(DeviceRole::WifiHotspot, false)
            .unwrap_err()
            .code,
        "confirmation_required"
    );
    let snapshot = app.set_device_role(DeviceRole::WifiHotspot, true).unwrap();

    assert_eq!(snapshot.device_role, Some(DeviceRole::WifiHotspot));
    assert_eq!(app.environment().role(), DeviceRole::WifiHotspot);
    assert!(!snapshot.recovery_required);
}

#[test]
fn wifi_adapter_role_is_diagnostic_only_and_mismatch_rolls_back() {
    let mut app = ready(Vec::new());
    assert_eq!(
        app.set_device_role(DeviceRole::WifiAdapter, true)
            .unwrap_err()
            .code,
        "role_not_supported"
    );

    let mut app = ready(vec![
        RoleWriteEffect::Apply(DeviceRole::WifiAdapter),
        RoleWriteEffect::ApplyRequested,
    ]);
    assert_eq!(
        app.set_device_role(DeviceRole::WifiHotspot, true)
            .unwrap_err()
            .code,
        "transaction_rolled_back"
    );
    assert_eq!(app.environment().role(), DeviceRole::PrismPulse);
}

#[test]
fn an_unverifiable_role_restoration_requires_recovery() {
    let mut app = ready(vec![
        RoleWriteEffect::Apply(DeviceRole::WifiAdapter),
        RoleWriteEffect::Fail,
    ]);

    let failure = app.set_device_role(DeviceRole::WifiHotspot, true).unwrap_err();

    assert_eq!(failure.code, "recovery_required");
    assert!(app.snapshot().recovery_required);
    assert!(app.environment().interrupted_marker());
    assert_eq!(
        app.set_device_role(DeviceRole::PrismPulse, true).unwrap_err().code,
        "recovery_required"
    );
}

#[test]
fn a_role_that_is_already_set_changes_nothing() {
    let mut app = ready(Vec::new());

    let snapshot = app.set_device_role(DeviceRole::PrismPulse, true).unwrap();

    assert_eq!(snapshot.device_role, Some(DeviceRole::PrismPulse));
    assert!(app.environment().recorded_mutations().is_empty());
}
