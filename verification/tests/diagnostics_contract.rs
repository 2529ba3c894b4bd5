use puppis_core::diagnostics::{Diagnostics, DiagnosticsBundle, SUGGESTED_FILE_NAME};
use puppis_core::{
    Application, ClientNetworkObservation, DeviceIdentity, InMemoryEnvironment, OperationFailure,
    PuppisCandidate, QUALIFIED_FIRMWARE, StatusDimension, UsbLinkSpeed,
};
use serde_json::Value;

fn text(value: &str) -> Value {
    Value::String(value.to_owned())
}

fn optional(value: &Option<String>) -> Value {
    match value {
        Some(v) => text(v),
        None => Value::Null,
    }
}

fn status(s: &StatusDimension) -> Value {
    let mut m = serde_json::Map::new();
    m.insert("level".into(), text(&format!("{:?}", s.level)));
    m.insert("summary".into(), text(&s.summary));
    m.insert("guidance".into(), optional(&s.guidance));
    Value::Object(m)
}

/// The preview text of diagnostics, as the application renders it.
fn render(d: &Diagnostics) -> String {
    let mut root = serde_json::Map::new();
    root.insert("schemaVersion".into(), Value::from(d.schema_version));
    let mut application = serde_json::Map::new();
    application.insert("name".into(), text(&d.application.name));
    application.insert("version".into(), text(&d.application.version));
    root.insert("application".into(), Value::Object(application));
    root.insert("stateRevision".into(), Value::from(d.state_revision));
    let mut statuses = serde_json::Map::new();
    statuses.insert("usb".into(), status(&d.status.usb));
    statuses.insert("sharing".into(), status(&d.status.sharing));
    statuses.insert("protocol".into(), status(&d.status.protocol));
    statuses.insert("configuration".into(), status(&d.status.configuration));
    statuses.insert("clients".into(), status(&d.status.clients));
    root.insert("status".into(), Value::Object(statuses));
    let candidates = d.candidates.iter().map(|c| {
        let mut m = serde_json::Map::new();
        m.insert("alias".into(), text(&c.alias));
        m.insert("usbLinkSpeed".into(), text(&format!("{:?}", c.usb_link_speed)));
        Value::Object(m)
    }).collect();
    root.insert("candidates".into(), Value::Array(candidates));
    root.insert("verifiedPuppis".into(), match &d.verified_puppis {
        Some(v) => {
            let mut m = serde_json::Map::new();
            m.insert("model".into(), text(&v.model));
            m.insert("firmware".into(), text(&v.firmware));
            m.insert("role".into(), text(&v.role));
            m.insert("mutationsQualified".into(), Value::Bool(v.mutations_qualified));
            Value::Object(m)
        }
        None => Value::Null,
    });
    root.insert("hostSharing".into(), match &d.host_sharing {
        Some(h) => {
            let mut m = serde_json::Map::new();
            m.insert("profileKind".into(), text(&format!("{:?}", h.profile_kind)));
            m.insert("downstreamAddress".into(), optional(&h.downstream_address));
            m.insert("active".into(), Value::Bool(h.active));
            Value::Object(m)
        }
        None => Value::Null,
    });
    let radios = d.radios.iter().map(|r| {
        let mut m = serde_json::Map::new();
        m.insert("channel".into(), text(&r.channel));
        m.insert("country".into(), text(&r.country));
        m.insert("bandwidth".into(), text(&r.bandwidth));
        Value::Object(m)
    }).collect();
    root.insert("radios".into(), Value::Array(radios));
    root.insert("recoveryRequired".into(), Value::Bool(d.recovery_required));
    root.insert("activeOperation".into(), optional(&d.active_operation));
    root.insert("lastFailure".into(), match &d.last_failure {
        Some(f) => {
            let mut m = serde_json::Map::new();
            m.insert("code".into(), text(&f.code));
            m.insert("message".into(), text(&f.message));
            m.insert("guidance".into(), text(&f.guidance));
            m.insert("diagnosticReference".into(), optional(&f.diagnostic_reference));
            Value::Object(m)
        }
        None => Value::Null,
    });
    let evidence = d.client_evidence.iter().map(|e| {
        let mut m = serde_json::Map::new();
        m.insert("alias".into(), text(&e.alias));
        m.insert("addresses".into(), Value::Array(e.addresses.iter().map(|a| text(a)).collect()));
        m.insert("kind".into(), text(&format!("{:?}", e.kind)));
        m.insert("saved".into(), Value::Bool(e.saved));
        Value::Object(m)
    }).collect();
    root.insert("clientEvidence".into(), Value::Array(evidence));
    serde_json::to_string_pretty(&Value::Object(root)).unwrap()
}

fn preview(app: &Application) -> DiagnosticsBundle {
    DiagnosticsBundle::new(render(&app.preview_diagnostics()))
}

fn verified_application() -> Application {
    let environment = InMemoryEnvironment::with_candidates(vec![PuppisCandidate {
        id: "usb:enx020000000101:1790".into(),
        interface_name: "enx020000000101".into(),
        display_name: "USB network adapter (enx020000000101)".into(),
        link_speed: UsbLinkSpeed::SuperSpeed,
    }])
    .with_identity(DeviceIdentity {
        model: "P1411".into(),
        firmware: QUALIFIED_FIRMWARE.into(),
        role_code: "1".into(),
    });
    let mut app = Application::new(environment);
    app.refresh_candidates().unwrap();
    app.select_candidate("usb:enx020000000101:1790").unwrap();
    app.verify_selected_puppis().unwrap();
    app
}

#[test]
fn diagnostics_redact_saved_labels_and_hardware_addresses() {
    let environment = InMemoryEnvironment::with_candidates(vec![PuppisCandidate {
        id: "candidate-1".into(),
        interface_name: "enx001".into(),
        display_name: "USB network adapter (enx001)".into(),
        link_speed: UsbLinkSpeed::SuperSpeed,
    }])
    .with_recent_client_observations(vec![ClientNetworkObservation::fixture(
        "02:00:00:00:02:01",
        "192.168.137.20",
    )]);
    let mut app = Application::new(environment);
    app.refresh_candidates().unwrap();
    app.select_candidate("candidate-1").unwrap();
    app.refresh_client_evidence(true).unwrap();
    app.save_client_label("02:00:00:00:02:01", "Living Room Headset")
        .unwrap();

    let preview = preview(&app).preview;

    assert!(!preview.contains("Living Room Headset"));
    assert!(!preview.contains("02:00:00:00:02:01"));
    assert!(preview.contains("client-1"));
    assert!(preview.contains("192.168.137.20"));
}

#[test]
fn diagnostics_retain_the_latest_typed_safe_failure() {
    let mut app = verified_application();
    app.remember_failure(&OperationFailure::safe(
        "network_authorization_denied",
        "NetworkManager authorization was denied.",
        "Keep the current network state or try again.",
    ));

    let bundle = preview(&app);

    assert!(bundle.preview.contains("network_authorization_denied"));
    assert!(
        bundle
            .preview
            .contains("NetworkManager authorization was denied.")
    );
    assert!(!bundle.preview.contains("org.freedesktop"));
}

#[test]
fn diagnostics_preview_retains_support_evidence_but_aliases_identifiers() {
    let bundle = preview(&verified_application());

    assert!(bundle.preview.contains(QUALIFIED_FIRMWARE));
    assert!(bundle.preview.contains("candidate-1"));
    assert!(!bundle.preview.contains("enx020000000101"));
    assert!(!bundle.preview.to_ascii_lowercase().contains("password"));
    assert!(!bundle.preview.to_ascii_lowercase().contains("ssid"));
    assert!(!bundle.preview.contains("raw_frame"));
}

#[test]
fn diagnostics_content_follows_the_snapshot() {
    let app = verified_application();
    let d = app.preview_diagnostics();

    assert_eq!(d.schema_version, 1);
    assert_eq!(d.application.name, "Puppis S1 Manager for Linux");
    assert_eq!(d.state_revision, app.snapshot().revision);
    assert_eq!(d.candidates.len(), 1);
    assert_eq!(d.candidates[0].alias, "candidate-1");
    assert_eq!(d.candidates[0].usb_link_speed, UsbLinkSpeed::SuperSpeed);
    assert_eq!(d.verified_puppis.as_ref().unwrap().role, "1");
    assert!(d.verified_puppis.as_ref().unwrap().mutations_qualified);
    assert_eq!(d.status.protocol.summary, "Verified P1411");
    assert!(d.client_evidence.is_empty());
}

#[test]
fn a_bundle_offers_the_standard_file_name() {
    let bundle = DiagnosticsBundle::new("{}".to_owned());

    assert_eq!(bundle.preview, "{}");
    assert_eq!(bundle.suggested_name, SUGGESTED_FILE_NAME);
    assert_eq!(bundle.suggested_name, "puppis-s1-diagnostics.json");
}
