//! The saved-client file: a versioned document whose decoded content is
//! accepted only in the supported schema version.

use vstd::prelude::*;
use crate::failures::failure_is;
use crate::model::{OperationFailure, SavedClient};

verus! {

/// The schema version of the saved-client file.
pub const SCHEMA_VERSION: u32 = 1;

/// The failure for a file that is not a saved-client document.
pub open spec fn is_corrupt(f: OperationFailure) -> bool {
    failure_is(f, "saved_clients_corrupt", "Saved client recognition data could not be read.",
        "Reset saved clients to discard the unreadable file, or preserve it for inspection.")
}

/// The failure for a document of another schema version.
pub open spec fn is_version_unsupported(f: OperationFailure) -> bool {
    failure_is(f, "saved_clients_version_unsupported", "Saved client recognition data uses an unsupported version.",
        "Upgrade the manager or reset saved clients to start with an empty file.")
}

/// The saved clients of a decoded file: `None` when its text was not a
/// saved-client document, otherwise its schema version and clients.
pub fn accept_saved_client_file(decoded: Option<(u32, Vec<SavedClient>)>) -> (r: Result<Vec<SavedClient>, OperationFailure>)
    ensures
        decoded is None ==> (r matches Err(f) && is_corrupt(f)),
        decoded matches Some((version, clients)) ==> if version == SCHEMA_VERSION {
            r matches Ok(c) && c@ == clients@
        } else {
            r matches Err(f) && is_version_unsupported(f)
        },
{
    match decoded {
        None => Err(OperationFailure::safe("saved_clients_corrupt", "Saved client recognition data could not be read.",
            "Reset saved clients to discard the unreadable file, or preserve it for inspection.")),
        Some((version, clients)) => if version == SCHEMA_VERSION {
            Ok(clients)
        } else {
            Err(OperationFailure::safe("saved_clients_version_unsupported", "Saved client recognition data uses an unsupported version.",
                "Upgrade the manager or reset saved clients to start with an empty file."))
        },
    }
}

/// The failure for a storage location that cannot be read or written.
pub fn storage_failure() -> (f: OperationFailure)
    ensures
        crate::failures::is_storage_write(f),
{
    crate::failures::storage_write_failure()
}


/// Reports a host without a user state directory for saved clients.
pub fn location_failure() -> (f: OperationFailure)
    ensures
        failure_is(f, "saved_clients_storage_failed", "Saved client recognition data is unavailable.",
            "Set HOME or XDG_STATE_HOME to a writable user state directory."),
{
    OperationFailure::safe("saved_clients_storage_failed", "Saved client recognition data is unavailable.",
        "Set HOME or XDG_STATE_HOME to a writable user state directory.")
}

} // verus!
