use puppis_core::client_state::{accept_saved_client_file, storage_failure, SCHEMA_VERSION};
use puppis_core::{InMemoryEnvironment, SavedClient, SavedClientStorage};

fn clients() -> Vec<SavedClient> {
    vec![SavedClient {
        label: "Living Room Headset".into(),
        hardware_address: "02:00:00:00:02:01".into(),
        last_observed_at: 1_721_920_000,
        addresses: vec!["192.168.137.20".into()],
    }]
}

#[test]
fn the_supported_schema_version_is_accepted() {
    assert_eq!(accept_saved_client_file(Some((SCHEMA_VERSION, clients()))).unwrap(), clients());
}

#[test]
fn corrupt_or_future_state_is_reported() {
    assert_eq!(accept_saved_client_file(None).unwrap_err().code, "saved_clients_corrupt");
    assert_eq!(
        accept_saved_client_file(Some((99, Vec::new()))).unwrap_err().code,
        "saved_clients_version_unsupported"
    );
    assert_eq!(storage_failure().code, "saved_clients_storage_failed");
}

#[test]
fn a_host_without_a_state_directory_keeps_saved_clients_in_memory() {
    let environment = InMemoryEnvironment::linux_system(None, false);
    assert!(environment.saved_clients.is_empty());
    assert_eq!(environment.saved_clients_storage, SavedClientStorage::Memory);
    assert_eq!(environment.saved_clients_failure.as_ref().unwrap().code, "saved_clients_storage_failed");
    assert!(!environment.interrupted);
    assert!(environment.candidates.is_empty());
}

#[test]
fn a_loaded_saved_client_file_is_the_startup_store() {
    let environment = InMemoryEnvironment::linux_system(Some(Ok(clients())), true);
    assert_eq!(environment.saved_clients, clients());
    assert_eq!(environment.saved_clients_storage, SavedClientStorage::Durable);
    assert!(environment.saved_clients_failure.is_none());
    assert!(environment.interrupted);
}

#[test]
fn an_unreadable_saved_client_file_is_remembered_at_startup() {
    let failure = accept_saved_client_file(None).unwrap_err();
    let environment = InMemoryEnvironment::linux_system(Some(Err(failure.clone())), false);
    assert!(environment.saved_clients.is_empty());
    assert_eq!(environment.saved_clients_storage, SavedClientStorage::Durable);
    assert_eq!(environment.saved_clients_failure, Some(failure));
}
