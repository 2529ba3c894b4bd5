use puppis_core::log::{append_bounded, BoundedLog, SafeEvent, PRODUCTION_LIMIT};

fn line(event: SafeEvent) -> Vec<u8> {
    let mut object = serde_json::Map::new();
    object.insert("schemaVersion".into(), serde_json::Value::from(1));
    object.insert("event".into(), serde_json::Value::String(event.name().to_owned()));
    let mut text = serde_json::to_string(&serde_json::Value::Object(object)).unwrap();
    text.push('\n');
    text.into_bytes()
}

#[test]
fn structured_log_is_bounded_and_has_no_free_form_secret_channel() {
    let log = BoundedLog::with_limit(std::path::PathBuf::from("events.jsonl"), 512);
    let mut contents: Vec<u8> = Vec::new();

    for _ in 0..100 {
        contents = append_bounded(&contents, &line(SafeEvent::SettingsTransactionVerified), log.byte_limit());
    }

    let contents = String::from_utf8(contents).unwrap();
    assert!(contents.len() <= 512);
    assert!(
        contents
            .lines()
            .all(|line| serde_json::from_str::<serde_json::Value>(line).is_ok())
    );
    assert!(!contents.to_ascii_lowercase().contains("password"));
}

#[test]
fn whole_lines_are_dropped_from_the_front() {
    assert_eq!(append_bounded(b"aa\nbb\n", b"cc\n", 6), b"bb\ncc\n".to_vec());
    assert_eq!(append_bounded(b"", b"too long\n", 4), Vec::<u8>::new());
    assert_eq!(append_bounded(b"a\n", b"b\n", 10), b"a\nb\n".to_vec());
}

#[test]
fn the_production_log_lives_at_the_given_path() {
    assert!(BoundedLog::system_default(None).is_none());
    let log = BoundedLog::system_default(Some(std::path::PathBuf::from("/state/events.jsonl"))).unwrap();
    assert_eq!(log.byte_limit(), PRODUCTION_LIMIT);
    assert_eq!(log.path(), &std::path::PathBuf::from("/state/events.jsonl"));
    assert_eq!(SafeEvent::RecoveryRequired.name(), "recovery_required");
}
