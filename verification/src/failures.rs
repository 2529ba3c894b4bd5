//! The stable failures that operations report. Each failure has a
//! constructor and a predicate that names its exact code, message and
//! guidance, so that contracts can say which failure an input produces.

use vstd::prelude::*;
use crate::model::OperationFailure;

verus! {

/// The failure carries exactly this code, message and guidance, and no
/// diagnostic reference.
pub open spec fn failure_is(f: OperationFailure, code: &str, message: &str, guidance: &str) -> bool {
    &&& f.code@ == code@
    &&& f.message@ == message@
    &&& f.guidance@ == guidance@
    &&& f.diagnostic_reference is None
}

impl OperationFailure {
    /// A failure with a stable code and user-safe text.
    pub fn safe(code: &str, message: &str, guidance: &str) -> (f: OperationFailure)
        ensures
            failure_is(f, code, message, guidance),
    {
        OperationFailure {
            code: code.to_owned(),
            message: message.to_owned(),
            guidance: guidance.to_owned(),
            diagnostic_reference: None,
        }
    }

    /// A copy of this failure.
    pub fn copied(&self) -> (r: OperationFailure)
        ensures
            r == *self,
    {
        OperationFailure {
            code: self.code.clone(),
            message: self.message.clone(),
            guidance: self.guidance.clone(),
            diagnostic_reference: match &self.diagnostic_reference {
                Some(d) => Some(d.clone()),
                None => None,
            },
        }
    }
}

/// The failure of the protocol frame checks, with the given message.
pub open spec fn is_invalid_frame(f: OperationFailure, message: &str) -> bool {
    failure_is(f, "protocol_invalid_frame", message, "This firmware may be incompatible. Device mutations remain unavailable.")
}

/// A protocol frame or object that fails validation.
pub fn invalid_frame(message: &str) -> (f: OperationFailure)
    ensures
        is_invalid_frame(f, message),
{
    OperationFailure::safe("protocol_invalid_frame", message, "This firmware may be incompatible. Device mutations remain unavailable.")
}

/// The failure for the device did not answer the identity getter.
pub open spec fn is_identity_unreachable(f: OperationFailure) -> bool {
    failure_is(f, "protocol_unreachable", "The Puppis protocol is not reachable.", "Prepare temporary host addressing and try read-only identity again.")
}

/// Reports the device did not answer the identity getter.
pub fn identity_unreachable_failure() -> (f: OperationFailure)
    ensures
        is_identity_unreachable(f),
{
    OperationFailure::safe("protocol_unreachable", "The Puppis protocol is not reachable.", "Prepare temporary host addressing and try read-only identity again.")
}

/// The failure for no identity is available for the selected candidate.
pub open spec fn is_identity_unanswered(f: OperationFailure) -> bool {
    failure_is(f, "protocol_unreachable", "The selected candidate did not answer the Puppis protocol.", "Check host addressing and try verification again.")
}

/// Reports no identity is available for the selected candidate.
pub fn identity_unanswered_failure() -> (f: OperationFailure)
    ensures
        is_identity_unanswered(f),
{
    OperationFailure::safe("protocol_unreachable", "The selected candidate did not answer the Puppis protocol.", "Check host addressing and try verification again.")
}

/// The failure for no host sharing observation is available.
pub open spec fn is_network_state_unavailable(f: OperationFailure) -> bool {
    failure_is(f, "network_state_unavailable", "Host sharing state is unavailable.", "Inspect NetworkManager again.")
}

/// Reports no host sharing observation is available.
pub fn network_state_unavailable_failure() -> (f: OperationFailure)
    ensures
        is_network_state_unavailable(f),
{
    OperationFailure::safe("network_state_unavailable", "Host sharing state is unavailable.", "Inspect NetworkManager again.")
}

/// The failure for the host refused authorization for a network change.
pub open spec fn is_authorization_denied(f: OperationFailure) -> bool {
    failure_is(f, "network_authorization_denied", "NetworkManager authorization was denied.", "Keep the current network state or try again when authorization is available.")
}

/// Reports the host refused authorization for a network change.
pub fn authorization_denied_failure() -> (f: OperationFailure)
    ensures
        is_authorization_denied(f),
{
    OperationFailure::safe("network_authorization_denied", "NetworkManager authorization was denied.", "Keep the current network state or try again when authorization is available.")
}

/// The failure for a change was requested on a profile this application does not own.
pub open spec fn is_external_profile(f: OperationFailure) -> bool {
    failure_is(f, "external_profile_immutable", "The active sharing profile is not owned by this application.", "External profiles can be observed but never modified or removed.")
}

/// Reports a change was requested on a profile this application does not own.
pub fn external_profile_failure() -> (f: OperationFailure)
    ensures
        is_external_profile(f),
{
    OperationFailure::safe("external_profile_immutable", "The active sharing profile is not owned by this application.", "External profiles can be observed but never modified or removed.")
}

/// The failure for the device has no settings for the requested radio.
pub open spec fn is_radio_read_unavailable(f: OperationFailure) -> bool {
    failure_is(f, "radio_unavailable", "The requested radio settings are unavailable.", "Verify the Puppis connection and request the settings again.")
}

/// Reports the device has no settings for the requested radio.
pub fn radio_read_unavailable_failure() -> (f: OperationFailure)
    ensures
        is_radio_read_unavailable(f),
{
    OperationFailure::safe("radio_unavailable", "The requested radio settings are unavailable.", "Verify the Puppis connection and request the settings again.")
}

/// The failure for the device refused a radio write.
pub open spec fn is_radio_write_failed(f: OperationFailure) -> bool {
    failure_is(f, "device_mutation_failed", "The Puppis did not accept the requested settings transaction.", "The manager will reconcile observed state before allowing another change.")
}

/// Reports the device refused a radio write.
pub fn radio_write_failed_failure() -> (f: OperationFailure)
    ensures
        is_radio_write_failed(f),
{
    OperationFailure::safe("device_mutation_failed", "The Puppis did not accept the requested settings transaction.", "The manager will reconcile observed state before allowing another change.")
}

/// The failure for the device refused a role write.
pub open spec fn is_role_write_failed(f: OperationFailure) -> bool {
    failure_is(f, "device_mutation_failed", "The Puppis did not accept the role transition.", "The manager will reconcile observed state before another mutation.")
}

/// Reports the device refused a role write.
pub fn role_write_failed_failure() -> (f: OperationFailure)
    ensures
        is_role_write_failed(f),
{
    OperationFailure::safe("device_mutation_failed", "The Puppis did not accept the role transition.", "The manager will reconcile observed state before another mutation.")
}

/// The failure for the requested candidate is not among the listed candidates.
pub open spec fn is_candidate_not_found(f: OperationFailure) -> bool {
    failure_is(f, "candidate_not_found", "That Puppis candidate is no longer available.", "Refresh device discovery and select an available candidate.")
}

/// Reports the requested candidate is not among the listed candidates.
pub fn candidate_not_found_failure() -> (f: OperationFailure)
    ensures
        is_candidate_not_found(f),
{
    OperationFailure::safe("candidate_not_found", "That Puppis candidate is no longer available.", "Refresh device discovery and select an available candidate.")
}

/// The failure for verification was requested with no candidate selected.
pub open spec fn is_verification_candidate_required(f: OperationFailure) -> bool {
    failure_is(f, "candidate_required", "Select a Puppis candidate before verification.", "Refresh discovery and select the USB network adapter to inspect.")
}

/// Reports verification was requested with no candidate selected.
pub fn verification_candidate_required_failure() -> (f: OperationFailure)
    ensures
        is_verification_candidate_required(f),
{
    OperationFailure::safe("candidate_required", "Select a Puppis candidate before verification.", "Refresh discovery and select the USB network adapter to inspect.")
}

/// The failure for the device identified as another model.
pub open spec fn is_identity_not_p1411(f: OperationFailure) -> bool {
    failure_is(f, "identity_not_p1411", "The selected adapter did not identify as a P1411.", "Select another candidate. No device settings were changed.")
}

/// Reports the device identified as another model.
pub fn identity_not_p1411_failure() -> (f: OperationFailure)
    ensures
        is_identity_not_p1411(f),
{
    OperationFailure::safe("identity_not_p1411", "The selected adapter did not identify as a P1411.", "Select another candidate. No device settings were changed.")
}

/// The failure for another route uses the Puppis subnet.
pub open spec fn is_subnet_conflict(f: OperationFailure) -> bool {
    failure_is(f, "puppis_subnet_conflict", "Managed sharing cannot start while another route uses the Puppis subnet.", "Resolve the 192.168.137.0/24 conflict and inspect again.")
}

/// Reports another route uses the Puppis subnet.
pub fn subnet_conflict_failure() -> (f: OperationFailure)
    ensures
        is_subnet_conflict(f),
{
    OperationFailure::safe("puppis_subnet_conflict", "Managed sharing cannot start while another route uses the Puppis subnet.", "Resolve the 192.168.137.0/24 conflict and inspect again.")
}

/// The failure for the host has no upstream route.
pub open spec fn is_upstream_unavailable(f: OperationFailure) -> bool {
    failure_is(f, "upstream_unavailable", "The host has no effective upstream route to share.", "Connect the host to the intended upstream network and try again.")
}

/// Reports the host has no upstream route.
pub fn upstream_unavailable_failure() -> (f: OperationFailure)
    ensures
        is_upstream_unavailable(f),
{
    OperationFailure::safe("upstream_unavailable", "The host has no effective upstream route to share.", "Connect the host to the intended upstream network and try again.")
}

/// The failure for radio settings were requested before verification.
pub open spec fn is_radio_read_requires_verification(f: OperationFailure) -> bool {
    failure_is(f, "verified_puppis_required", "Verify a P1411 before reading its radio settings.", "Select and verify a Puppis candidate first.")
}

/// Reports radio settings were requested before verification.
pub fn radio_read_requires_verification_failure() -> (f: OperationFailure)
    ensures
        is_radio_read_requires_verification(f),
{
    OperationFailure::safe("verified_puppis_required", "Verify a P1411 before reading its radio settings.", "Select and verify a Puppis candidate first.")
}

/// The failure for a network name outside the qualified format.
pub open spec fn is_invalid_ssid(f: OperationFailure) -> bool {
    failure_is(f, "invalid_ssid", "The network name must contain 1–18 ASCII letters or numbers.", "Choose a name matching the qualified P1411 format.")
}

/// Reports a network name outside the qualified format.
pub fn invalid_ssid_failure() -> (f: OperationFailure)
    ensures
        is_invalid_ssid(f),
{
    OperationFailure::safe("invalid_ssid", "The network name must contain 1–18 ASCII letters or numbers.", "Choose a name matching the qualified P1411 format.")
}

/// The failure for a channel outside the qualified list.
pub open spec fn is_channel_not_qualified(f: OperationFailure) -> bool {
    failure_is(f, "channel_not_qualified", "That channel is not qualified for this radio, firmware, and country.", "Choose Automatic or another channel shown as qualified.")
}

/// Reports a channel outside the qualified list.
pub fn channel_not_qualified_failure() -> (f: OperationFailure)
    ensures
        is_channel_not_qualified(f),
{
    OperationFailure::safe("channel_not_qualified", "That channel is not qualified for this radio, firmware, and country.", "Choose Automatic or another channel shown as qualified.")
}

/// The failure for a password change on a radio without that capability.
pub open spec fn is_password_unavailable(f: OperationFailure) -> bool {
    failure_is(f, "password_mutation_unavailable", "Password replacement is not qualified for this radio.", "Keep the current password and review the capability explanation.")
}

/// Reports a password change on a radio without that capability.
pub fn password_unavailable_failure() -> (f: OperationFailure)
    ensures
        is_password_unavailable(f),
{
    OperationFailure::safe("password_mutation_unavailable", "Password replacement is not qualified for this radio.", "Keep the current password and review the capability explanation.")
}

/// The failure for a password outside the qualified format.
pub open spec fn is_invalid_password(f: OperationFailure) -> bool {
    failure_is(f, "invalid_password", "The replacement password does not match the qualified P1411 format.", "Use 8–63 qualified ASCII letters, numbers, or symbols.")
}

/// Reports a password outside the qualified format.
pub fn invalid_password_failure() -> (f: OperationFailure)
    ensures
        is_invalid_password(f),
{
    OperationFailure::safe("invalid_password", "The replacement password does not match the qualified P1411 format.", "Use 8–63 qualified ASCII letters, numbers, or symbols.")
}

/// The failure for changes to a radio whose settings were not read.
pub open spec fn is_radio_snapshot_missing(f: OperationFailure) -> bool {
    failure_is(f, "radio_unavailable", "The requested radio settings are unavailable.", "Read current radio settings before applying changes.")
}

/// Reports changes to a radio whose settings were not read.
pub fn radio_snapshot_missing_failure() -> (f: OperationFailure)
    ensures
        is_radio_snapshot_missing(f),
{
    OperationFailure::safe("radio_unavailable", "The requested radio settings are unavailable.", "Read current radio settings before applying changes.")
}

/// The failure for a network-name change on unqualified firmware.
pub open spec fn is_ssid_not_qualified(f: OperationFailure) -> bool {
    failure_is(f, "mutation_not_qualified", "Network-name changes are unavailable for this firmware.", "Use read-only settings and diagnostics.")
}

/// Reports a network-name change on unqualified firmware.
pub fn ssid_not_qualified_failure() -> (f: OperationFailure)
    ensures
        is_ssid_not_qualified(f),
{
    OperationFailure::safe("mutation_not_qualified", "Network-name changes are unavailable for this firmware.", "Use read-only settings and diagnostics.")
}

/// The failure for the diagnostic-only adapter role was requested.
pub open spec fn is_role_not_supported(f: OperationFailure) -> bool {
    failure_is(f, "role_not_supported", "Wi-Fi adapter mode is diagnostic-only.", "Choose PrismPulse mode or Wi-Fi hotspot mode.")
}

/// Reports the diagnostic-only adapter role was requested.
pub fn role_not_supported_failure() -> (f: OperationFailure)
    ensures
        is_role_not_supported(f),
{
    OperationFailure::safe("role_not_supported", "Wi-Fi adapter mode is diagnostic-only.", "Choose PrismPulse mode or Wi-Fi hotspot mode.")
}

/// The failure for an unconfirmed role transition.
pub open spec fn is_role_confirmation(f: OperationFailure) -> bool {
    failure_is(f, "confirmation_required", "Confirm the disruptive device-role transition.", "Review both roles and the client-disconnection warning, then confirm.")
}

/// Reports an unconfirmed role transition.
pub fn role_confirmation_failure() -> (f: OperationFailure)
    ensures
        is_role_confirmation(f),
{
    OperationFailure::safe("confirmation_required", "Confirm the disruptive device-role transition.", "Review both roles and the client-disconnection warning, then confirm.")
}

/// The failure for a role change on unqualified firmware.
pub open spec fn is_role_not_qualified(f: OperationFailure) -> bool {
    failure_is(f, "mutation_not_qualified", "Device role changes are unavailable for this firmware.", "Use read-only diagnostics.")
}

/// Reports a role change on unqualified firmware.
pub fn role_not_qualified_failure() -> (f: OperationFailure)
    ensures
        is_role_not_qualified(f),
{
    OperationFailure::safe("mutation_not_qualified", "Device role changes are unavailable for this firmware.", "Use read-only diagnostics.")
}

/// The failure for the role write left the original role in place.
pub open spec fn is_role_not_applied(f: OperationFailure) -> bool {
    failure_is(f, "transaction_not_applied", "The Puppis role did not change.", "Review the current role and try again if needed.")
}

/// Reports the role write left the original role in place.
pub fn role_not_applied_failure() -> (f: OperationFailure)
    ensures
        is_role_not_applied(f),
{
    OperationFailure::safe("transaction_not_applied", "The Puppis role did not change.", "Review the current role and try again if needed.")
}

/// The failure for the original role was restored and verified.
pub open spec fn is_role_rolled_back(f: OperationFailure) -> bool {
    failure_is(f, "transaction_rolled_back", "The requested role could not be verified, so the original role was restored.", "Review diagnostics before trying again.")
}

/// Reports the original role was restored and verified.
pub fn role_rolled_back_failure() -> (f: OperationFailure)
    ensures
        is_role_rolled_back(f),
{
    OperationFailure::safe("transaction_rolled_back", "The requested role could not be verified, so the original role was restored.", "Review diagnostics before trying again.")
}

/// The failure for a label that is empty, too long or not printable.
pub open spec fn is_invalid_label(f: OperationFailure) -> bool {
    failure_is(f, "invalid_client_label", "Client labels must contain 1 to 40 printable characters.", "Choose a shorter label without control characters.")
}

/// Reports a label that is empty, too long or not printable.
pub fn invalid_label_failure() -> (f: OperationFailure)
    ensures
        is_invalid_label(f),
{
    OperationFailure::safe("invalid_client_label", "Client labels must contain 1 to 40 printable characters.", "Choose a shorter label without control characters.")
}

/// The failure for saving a client that is not currently observed.
pub open spec fn is_save_requires_observation(f: OperationFailure) -> bool {
    failure_is(f, "observed_client_required", "Only a currently observed client can be saved.", "Wait for local traffic from the client, refresh, and try again.")
}

/// Reports saving a client that is not currently observed.
pub fn save_requires_observation_failure() -> (f: OperationFailure)
    ensures
        is_save_requires_observation(f),
{
    OperationFailure::safe("observed_client_required", "Only a currently observed client can be saved.", "Wait for local traffic from the client, refresh, and try again.")
}

/// The failure for a label already used by another saved client.
pub open spec fn is_label_not_unique(f: OperationFailure) -> bool {
    failure_is(f, "client_label_not_unique", "That client label is already in use.", "Choose a unique label or rename the existing saved client.")
}

/// Reports a label already used by another saved client.
pub fn label_not_unique_failure() -> (f: OperationFailure)
    ensures
        is_label_not_unique(f),
{
    OperationFailure::safe("client_label_not_unique", "That client label is already in use.", "Choose a unique label or rename the existing saved client.")
}

/// The failure for an eleventh saved client.
pub open spec fn is_saved_client_limit(f: OperationFailure) -> bool {
    failure_is(f, "saved_client_limit_reached", "Up to 10 clients can be saved.", "Forget a saved client before adding another.")
}

/// Reports an eleventh saved client.
pub fn saved_client_limit_failure() -> (f: OperationFailure)
    ensures
        is_saved_client_limit(f),
{
    OperationFailure::safe("saved_client_limit_reached", "Up to 10 clients can be saved.", "Forget a saved client before adding another.")
}

/// The failure for no saved client has the given hardware address.
pub open spec fn is_saved_client_not_found(f: OperationFailure) -> bool {
    failure_is(f, "saved_client_not_found", "That saved client no longer exists.", "Refresh saved clients and try again.")
}

/// Reports no saved client has the given hardware address.
pub fn saved_client_not_found_failure() -> (f: OperationFailure)
    ensures
        is_saved_client_not_found(f),
{
    OperationFailure::safe("saved_client_not_found", "That saved client no longer exists.", "Refresh saved clients and try again.")
}

/// The failure for an unconfirmed reassociation.
pub open spec fn is_reassociation_confirmation(f: OperationFailure) -> bool {
    failure_is(f, "confirmation_required", "Confirm the saved-client reassociation.", "Review the old and new hardware addresses before continuing.")
}

/// Reports an unconfirmed reassociation.
pub fn reassociation_confirmation_failure() -> (f: OperationFailure)
    ensures
        is_reassociation_confirmation(f),
{
    OperationFailure::safe("confirmation_required", "Confirm the saved-client reassociation.", "Review the old and new hardware addresses before continuing.")
}

/// The failure for reassociation to a hardware address that is not observed.
pub open spec fn is_reassociation_requires_observation(f: OperationFailure) -> bool {
    failure_is(f, "observed_client_required", "The new hardware address is not currently observed.", "Wait for local traffic from that client, refresh, and try again.")
}

/// Reports reassociation to a hardware address that is not observed.
pub fn reassociation_requires_observation_failure() -> (f: OperationFailure)
    ensures
        is_reassociation_requires_observation(f),
{
    OperationFailure::safe("observed_client_required", "The new hardware address is not currently observed.", "Wait for local traffic from that client, refresh, and try again.")
}

/// The failure for reassociation to a hardware address that is already saved.
pub open spec fn is_saved_client_exists(f: OperationFailure) -> bool {
    failure_is(f, "saved_client_already_exists", "The new hardware address already belongs to a saved client.", "Forget or rename the existing saved client first.")
}

/// Reports reassociation to a hardware address that is already saved.
pub fn saved_client_exists_failure() -> (f: OperationFailure)
    ensures
        is_saved_client_exists(f),
{
    OperationFailure::safe("saved_client_already_exists", "The new hardware address already belongs to a saved client.", "Forget or rename the existing saved client first.")
}

/// The failure for an unconfirmed removal of every saved client.
pub open spec fn is_clear_confirmation(f: OperationFailure) -> bool {
    failure_is(f, "confirmation_required", "Confirm removal of all saved clients.", "This removes every saved label and recognition record.")
}

/// Reports an unconfirmed removal of every saved client.
pub fn clear_confirmation_failure() -> (f: OperationFailure)
    ensures
        is_clear_confirmation(f),
{
    OperationFailure::safe("confirmation_required", "Confirm removal of all saved clients.", "This removes every saved label and recognition record.")
}

/// The failure for an unconfirmed reset of saved client storage.
pub open spec fn is_reset_confirmation(f: OperationFailure) -> bool {
    failure_is(f, "confirmation_required", "Confirm reset of saved client recognition data.", "The unreadable or unsupported saved-client file will be replaced.")
}

/// Reports an unconfirmed reset of saved client storage.
pub fn reset_confirmation_failure() -> (f: OperationFailure)
    ensures
        is_reset_confirmation(f),
{
    OperationFailure::safe("confirmation_required", "Confirm reset of saved client recognition data.", "The unreadable or unsupported saved-client file will be replaced.")
}

/// The failure for a reset without durable storage.
pub open spec fn is_storage_unavailable(f: OperationFailure) -> bool {
    failure_is(f, "saved_clients_storage_failed", "Saved client recognition storage is unavailable.", "Set HOME or XDG_STATE_HOME to a writable user state directory.")
}

/// Reports a reset without durable storage.
pub fn storage_unavailable_failure() -> (f: OperationFailure)
    ensures
        is_storage_unavailable(f),
{
    OperationFailure::safe("saved_clients_storage_failed", "Saved client recognition storage is unavailable.", "Set HOME or XDG_STATE_HOME to a writable user state directory.")
}

/// The failure for durable storage that rejected a write.
pub open spec fn is_storage_write(f: OperationFailure) -> bool {
    failure_is(f, "saved_clients_storage_failed", "Saved client recognition data could not be updated.", "Check the user state directory permissions and try again.")
}

/// Reports durable storage that rejected a write.
pub fn storage_write_failure() -> (f: OperationFailure)
    ensures
        is_storage_write(f),
{
    OperationFailure::safe("saved_clients_storage_failed", "Saved client recognition data could not be updated.", "Check the user state directory permissions and try again.")
}

/// The failure for a baseline while no recovery is required.
pub open spec fn is_recovery_not_required(f: OperationFailure) -> bool {
    failure_is(f, "recovery_not_required", "The device does not currently require recovery reconciliation.", "Continue using the verified current state.")
}

/// Reports a baseline while no recovery is required.
pub fn recovery_not_required_failure() -> (f: OperationFailure)
    ensures
        is_recovery_not_required(f),
{
    OperationFailure::safe("recovery_not_required", "The device does not currently require recovery reconciliation.", "Continue using the verified current state.")
}

/// The failure for a baseline before verification.
pub open spec fn is_baseline_requires_verification(f: OperationFailure) -> bool {
    failure_is(f, "verified_puppis_required", "Reverify the P1411 before accepting a recovery baseline.", "Reconnect and verify the device first.")
}

/// Reports a baseline before verification.
pub fn baseline_requires_verification_failure() -> (f: OperationFailure)
    ensures
        is_baseline_requires_verification(f),
{
    OperationFailure::safe("verified_puppis_required", "Reverify the P1411 before accepting a recovery baseline.", "Reconnect and verify the device first.")
}

/// The failure for a radio change on unqualified firmware.
pub open spec fn is_radio_not_qualified(f: OperationFailure) -> bool {
    failure_is(f, "mutation_not_qualified", "Device changes are unavailable for this firmware.", "Use read-only diagnostics until this exact firmware is qualified.")
}

/// Reports a radio change on unqualified firmware.
pub fn radio_not_qualified_failure() -> (f: OperationFailure)
    ensures
        is_radio_not_qualified(f),
{
    OperationFailure::safe("mutation_not_qualified", "Device changes are unavailable for this firmware.", "Use read-only diagnostics until this exact firmware is qualified.")
}

/// The failure for the radio write left the original settings in place.
pub open spec fn is_radio_not_applied(f: OperationFailure) -> bool {
    failure_is(f, "transaction_not_applied", "The Puppis settings did not change.", "Review the current settings and try again if needed.")
}

/// Reports the radio write left the original settings in place.
pub fn radio_not_applied_failure() -> (f: OperationFailure)
    ensures
        is_radio_not_applied(f),
{
    OperationFailure::safe("transaction_not_applied", "The Puppis settings did not change.", "Review the current settings and try again if needed.")
}

/// The failure for the original radio settings were restored and verified.
pub open spec fn is_radio_rolled_back(f: OperationFailure) -> bool {
    failure_is(f, "transaction_rolled_back", "The requested change could not be verified, so the original settings were restored.", "Review diagnostics before trying the change again.")
}

/// Reports the original radio settings were restored and verified.
pub fn radio_rolled_back_failure() -> (f: OperationFailure)
    ensures
        is_radio_rolled_back(f),
{
    OperationFailure::safe("transaction_rolled_back", "The requested change could not be verified, so the original settings were restored.", "Review diagnostics before trying the change again.")
}

/// The failure for an interface operation with no candidate selected.
pub open spec fn is_interface_candidate_required(f: OperationFailure) -> bool {
    failure_is(f, "candidate_required", "Select a Puppis candidate first.", "Refresh device discovery and select a candidate.")
}

/// Reports an interface operation with no candidate selected.
pub fn interface_candidate_required_failure() -> (f: OperationFailure)
    ensures
        is_interface_candidate_required(f),
{
    OperationFailure::safe("candidate_required", "Select a Puppis candidate first.", "Refresh device discovery and select a candidate.")
}

/// The failure for the selected candidate is no longer listed.
pub open spec fn is_interface_candidate_missing(f: OperationFailure) -> bool {
    failure_is(f, "candidate_not_found", "That Puppis candidate is no longer available.", "Refresh device discovery.")
}

/// Reports the selected candidate is no longer listed.
pub fn interface_candidate_missing_failure() -> (f: OperationFailure)
    ensures
        is_interface_candidate_missing(f),
{
    OperationFailure::safe("candidate_not_found", "That Puppis candidate is no longer available.", "Refresh device discovery.")
}

/// The failure for the device state must be reconciled first.
pub open spec fn is_recovery(f: OperationFailure) -> bool {
    failure_is(f, "recovery_required", "The Puppis configuration requires reconciliation.", "Use read-only settings and diagnostics, then accept a verified baseline before another mutation.")
}

/// Reports the device state must be reconciled first.
pub fn recovery_failure() -> (f: OperationFailure)
    ensures
        is_recovery(f),
{
    OperationFailure::safe("recovery_required", "The Puppis configuration requires reconciliation.", "Use read-only settings and diagnostics, then accept a verified baseline before another mutation.")
}

/// The failure for the device role cannot be read.
pub open spec fn is_role_unavailable(f: OperationFailure) -> bool {
    failure_is(f, "device_role_unavailable", "The current Puppis role is unavailable.", "Reconnect and verify the device before requesting a role transition.")
}

/// Reports the device role cannot be read.
pub fn role_unavailable_failure() -> (f: OperationFailure)
    ensures
        is_role_unavailable(f),
{
    OperationFailure::safe("device_role_unavailable", "The current Puppis role is unavailable.", "Reconnect and verify the device before requesting a role transition.")
}

/// The failure for the diagnostics preview could not be rendered.
pub open spec fn is_diagnostics_failed(f: OperationFailure) -> bool {
    failure_is(f, "diagnostics_generation_failed", "The diagnostics preview could not be generated.", "Refresh application state and try again.")
}

/// Reports the diagnostics preview could not be rendered.
pub fn diagnostics_failed_failure() -> (f: OperationFailure)
    ensures
        is_diagnostics_failed(f),
{
    OperationFailure::safe("diagnostics_generation_failed", "The diagnostics preview could not be generated.", "Refresh application state and try again.")
}

/// The failure for a response to another operation.
pub open spec fn is_response_mismatch(f: OperationFailure) -> bool {
    failure_is(f, "protocol_response_mismatch", "The Puppis response did not match the requested operation.", "Reconnect the device and try the read-only operation again.")
}

/// Reports a response to another operation.
pub fn response_mismatch_failure() -> (f: OperationFailure)
    ensures
        is_response_mismatch(f),
{
    OperationFailure::safe("protocol_response_mismatch", "The Puppis response did not match the requested operation.", "Reconnect the device and try the read-only operation again.")
}

} // verus!
