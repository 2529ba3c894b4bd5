use puppis_core::driver::{operation_events, radio_write_effect, role_write_effect, Command};
use puppis_core::environment::SystemAction;
use puppis_core::log::SafeEvent;
use puppis_core::{
    Application, AuthorizationState, DeviceIdentity, DeviceRole, HostSharingObservation,
    InMemoryEnvironment, OperationFailure, ProfileKind, PuppisCandidate, RadioBand,
    RadioConfiguration, RadioUpdate, RadioWriteEffect, RoleWriteEffect, QUALIFIED_FIRMWARE,
    UsbLinkSpeed,
};

fn candidate() -> PuppisCandidate {
    PuppisCandidate {
        id: "candidate-1".into(),
        interface_name: "enx001".into(),
        display_name: "USB network adapter (enx001)".into(),
        link_speed: UsbLinkSpeed::SuperSpeed,
    }
}

fn identity() -> DeviceIdentity {
    DeviceIdentity { model: "P1411".into(), firmware: QUALIFIED_FIRMWARE.into(), role_code: "1".into() }
}

fn original() -> RadioConfiguration {
    RadioConfiguration::fixture("original", "private-value", "0", "CA", "160")
}

fn ready() -> Application {
    let environment = InMemoryEnvironment::with_candidates(vec![candidate()])
        .with_identity(identity())
        .with_radio(RadioBand::FiveGhz, original())
        .with_radio(RadioBand::TwoPointFourGhz, RadioConfiguration::fixture("original24", "private-24", "0", "CA", "40"));
    let mut app = Application::new(environment);
    app.refresh_candidates().unwrap();
    app.verify_selected_puppis().unwrap();
    app.read_radio_settings().unwrap();
    app
}

fn rename() -> Command {
    Command::ApplyRadioSettings(RadioBand::FiveGhz, RadioUpdate { ssid: Some("NewNetwork".into()), ..RadioUpdate::default() })
}

fn failure() -> OperationFailure {
    OperationFailure::safe("device_unreachable", "Unreachable.", "Retry.")
}

#[test]
fn a_radio_change_marks_writes_verifies_and_clears_in_order() {
    let mut base = ready();
    let (_, _, first) = base.step(&rename(), 0);
    assert!(matches!(first, Some(SystemAction::SetMarker(true))));
    let (_, _, second) = base.step(&rename(), 1);
    let Some(SystemAction::WriteRadio(band, desired, previous)) = second else { panic!("a radio write is next") };
    assert_eq!(band, RadioBand::FiveGhz);
    assert_eq!(desired.ssid, "NewNetwork");
    assert!(previous == Some(original()));
    let effect = radio_write_effect(&previous, &Ok(()), &Ok(desired.clone()));
    base.environment_mut().answer_radio_write(effect);
    let (_, _, third) = base.step(&rename(), 2);
    assert!(matches!(third, Some(SystemAction::SetMarker(false))));
    let (model, result, last) = base.step(&rename(), 3);
    assert!(last.is_none());
    let snapshot = result.unwrap();
    assert_eq!(snapshot.radios.iter().find(|radio| radio.band == RadioBand::FiveGhz).unwrap().ssid, "NewNetwork");
    assert!(!model.environment().interrupted_marker());
    assert_eq!(operation_events(&base, &model, false, true), vec![SafeEvent::SettingsTransactionVerified]);
}

#[test]
fn an_unreadable_radio_write_is_restored_before_anything_else() {
    let mut base = ready();
    let effect = radio_write_effect(&Some(original()), &Err(failure()), &Err(failure()));
    assert!(effect == RadioWriteEffect::Unverifiable);
    base.environment_mut().answer_radio_write(effect);
    let (_, _, next) = base.step(&rename(), 2);
    let Some(SystemAction::WriteRadio(_, restore, _)) = next else { panic!("the original settings are written back") };
    assert!(restore == original());
    base.environment_mut().answer_radio_write(radio_write_effect(&None, &Ok(()), &Ok(original())));
    let (_, _, clear) = base.step(&rename(), 3);
    assert!(matches!(clear, Some(SystemAction::SetMarker(false))));
    let (_, result, last) = base.step(&rename(), 4);
    assert!(last.is_none());
    assert_eq!(result.unwrap_err().code, "transaction_rolled_back");
}

#[test]
fn radio_write_answers_map_to_the_model_outcomes() {
    let changed = RadioConfiguration::fixture("changed", "private-value", "0", "CA", "160");
    assert!(radio_write_effect(&Some(original()), &Ok(()), &Ok(changed.clone())) == RadioWriteEffect::Apply(changed.clone()));
    assert!(radio_write_effect(&Some(original()), &Err(failure()), &Ok(original())) == RadioWriteEffect::Fail);
    assert!(radio_write_effect(&Some(original()), &Err(failure()), &Ok(changed)) == RadioWriteEffect::Unverifiable);
    assert_eq!(role_write_effect(Some(DeviceRole::PrismPulse), &Ok(()), &Ok(DeviceRole::WifiHotspot)), RoleWriteEffect::Apply(DeviceRole::WifiHotspot));
    assert_eq!(role_write_effect(Some(DeviceRole::PrismPulse), &Err(failure()), &Ok(DeviceRole::PrismPulse)), RoleWriteEffect::Fail);
    assert_eq!(role_write_effect(Some(DeviceRole::PrismPulse), &Ok(()), &Err(failure())), RoleWriteEffect::Unverifiable);
}

#[test]
fn a_role_change_writes_the_role_inside_the_marker_and_is_logged() {
    let mut base = ready();
    let command = Command::SetDeviceRole(DeviceRole::WifiHotspot, true);
    assert!(matches!(base.step(&command, 0).2, Some(SystemAction::SetMarker(true))));
    assert!(matches!(base.step(&command, 1).2, Some(SystemAction::WriteRole(DeviceRole::WifiHotspot, Some(DeviceRole::PrismPulse)))));
    base.environment_mut().answer_role_write(RoleWriteEffect::Apply(DeviceRole::WifiHotspot));
    assert!(matches!(base.step(&command, 2).2, Some(SystemAction::SetMarker(false))));
    let (model, result, last) = base.step(&command, 3);
    assert!(last.is_none());
    assert_eq!(result.unwrap().device_role, Some(DeviceRole::WifiHotspot));
    assert_eq!(operation_events(&base, &model, false, true), vec![SafeEvent::SettingsTransactionStarted]);
}

fn sharing(authorization: AuthorizationState) -> Application {
    let environment = InMemoryEnvironment::with_candidates(vec![candidate()])
        .with_identity(identity())
        .with_host_sharing(HostSharingObservation {
            upstream_available: true,
            upstream_description: Some("Host effective default route".into()),
            profile_kind: ProfileKind::Absent,
            profile_name: None,
            active: false,
            ipv4_shared: false,
            downstream_address: None,
            ipv6_disabled: false,
            autoconnect: false,
            subnet_conflict: false,
            authorization,
        });
    let mut app = Application::new(environment);
    app.refresh_candidates().unwrap();
    app.select_candidate("candidate-1").unwrap();
    app
}

#[test]
fn a_refused_reconciliation_rolls_the_checkpoint_back() {
    let mut base = sharing(AuthorizationState::Prompt);
    let command = Command::EnableManagedSharing;
    assert!(matches!(base.step(&command, 0).2, Some(SystemAction::CreateCheckpoint)));
    assert!(matches!(base.step(&command, 1).2, Some(SystemAction::ReconcileManaged)));
    base.environment_mut().deny_authorization();
    assert!(matches!(base.step(&command, 1).2, Some(SystemAction::RollbackCheckpoint)));
    let (_, result, last) = base.step(&command, 2);
    assert!(last.is_none());
    assert_eq!(result.unwrap_err().code, "network_authorization_denied");
}

#[test]
fn an_unreachable_device_is_reached_through_the_bootstrap() {
    let mut base = sharing(AuthorizationState::Prompt);
    base.environment_mut().observe_identity(Err(OperationFailure::safe("protocol_unreachable", "Unreachable.", "Retry.")));
    let command = Command::EnableManagedSharing;
    assert!(matches!(base.step(&command, 0).2, Some(SystemAction::CreateCheckpoint)));
    assert!(matches!(base.step(&command, 1).2, Some(SystemAction::PrepareBootstrap)));
    base.environment_mut().answer_identity(Ok(identity()));
    assert!(matches!(base.step(&command, 2).2, Some(SystemAction::ReconcileManaged)));
    assert!(matches!(base.step(&command, 3).2, Some(SystemAction::RemoveBootstrap)));
    assert!(matches!(base.step(&command, 4).2, Some(SystemAction::CommitCheckpoint)));
    let (model, result, last) = base.step(&command, 5);
    assert!(last.is_none());
    assert_eq!(result.unwrap().host_sharing.unwrap().profile_kind, ProfileKind::Managed);
    assert_eq!(operation_events(&base, &model, false, true), vec![SafeEvent::PuppisVerified]);
}

#[test]
fn verification_through_the_driver_is_logged() {
    let environment = InMemoryEnvironment::with_candidates(vec![candidate()]).with_identity(identity());
    let mut base = Application::new(environment);
    base.refresh_candidates().unwrap();
    let (model, result, next) = base.step(&Command::VerifySelectedPuppis, 0);
    assert!(next.is_none());
    assert!(result.is_ok());
    assert_eq!(operation_events(&base, &model, true, true), vec![SafeEvent::PuppisVerified]);
}

#[test]
fn disabling_without_a_known_host_state_is_refused() {
    let environment = InMemoryEnvironment::with_candidates(vec![candidate()]).with_identity(identity());
    let mut base = Application::new(environment);
    base.refresh_candidates().unwrap();
    base.select_candidate("candidate-1").unwrap();
    let (_, result, next) = base.step(&Command::DisableManagedSharing, 0);
    assert!(next.is_none());
    assert_eq!(result.unwrap_err().code, "network_state_unavailable");
}
