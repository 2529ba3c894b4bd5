use puppis_core::{Application, ApplicationSnapshot, InMemoryEnvironment};

#[test]
fn launch_without_a_device_is_safe_and_explains_each_status_dimension() {
    let app = Application::new(InMemoryEnvironment::default());

    let snapshot: ApplicationSnapshot = app.snapshot();

    assert_eq!(snapshot.revision, 1);
    assert_eq!(snapshot.usb.summary, "No Puppis candidate detected");
    assert_eq!(snapshot.sharing.summary, "Host sharing not inspected");
    assert_eq!(snapshot.protocol.summary, "No verified Puppis");
    assert_eq!(
        snapshot.configuration.summary,
        "Device configuration unavailable"
    );
    assert_eq!(snapshot.clients.summary, "Client evidence unavailable");
    assert!(snapshot.active_operation.is_none());
}

#[test]
fn failures_crossing_the_application_seam_are_stable_and_safe() {
    let failure = Application::new(InMemoryEnvironment::default())
        .select_candidate("missing")
        .expect_err("an unknown candidate must be rejected");

    assert_eq!(failure.code, "candidate_not_found");
    assert_eq!(
        failure.message,
        "That Puppis candidate is no longer available."
    );
    assert_eq!(
        failure.guidance,
        "Refresh device discovery and select an available candidate."
    );
    assert!(failure.diagnostic_reference.is_none());
}

#[test]
fn remembered_failures_are_published_with_a_new_revision() {
    let mut app = Application::new(InMemoryEnvironment::default());
    let before = app.snapshot().revision;
    let failure = puppis_core::OperationFailure::safe("network_change_failed", "message", "guidance");

    app.remember_failure(&failure);

    assert_eq!(app.snapshot().revision, before + 1);
    assert_eq!(app.snapshot().last_failure, Some(failure));
    assert!(app.ordinary_close_allowed());
}
