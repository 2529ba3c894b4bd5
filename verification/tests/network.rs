use puppis_core::sharing::{network_change_failure, profile_kind_for_uuid, MANAGED_UUID};
use puppis_core::ProfileKind;

#[test]
fn only_the_stable_uuid_proves_profile_ownership() {
    assert_eq!(
        profile_kind_for_uuid(&Some(MANAGED_UUID.to_owned())),
        ProfileKind::Managed
    );
    assert_eq!(
        profile_kind_for_uuid(&Some("external-profile-with-the-same-display-name".to_owned())),
        ProfileKind::External
    );
    assert_eq!(profile_kind_for_uuid(&None), ProfileKind::External);
}

#[test]
fn denied_or_cancelled_authorization_is_reported_as_such() {
    assert_eq!(
        network_change_failure(Some("org.freedesktop.NetworkManager.PermissionDenied.NotAuthorized")).code,
        "network_authorization_denied"
    );
    assert_eq!(
        network_change_failure(Some("org.freedesktop.DBus.Error.Cancelled")).code,
        "network_authorization_denied"
    );
    assert_eq!(
        network_change_failure(Some("org.freedesktop.NetworkManager.Failed")).code,
        "network_change_failed"
    );
    assert_eq!(network_change_failure(None).code, "network_change_failed");
}
