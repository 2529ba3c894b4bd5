//! Verified application core of the Puppis S1 manager: device discovery and
//! verification, host sharing, qualified radio and role transactions, client
//! evidence and saved client labels, the device frame protocol and the
//! privacy-preserving diagnostics preview.

pub mod model;
pub mod text;
pub mod failures;
pub mod environment;
pub mod evidence;
pub mod saved;
pub mod sharing;
pub mod application;
pub mod radio;
pub mod protocol;
pub mod diagnostics;
pub mod laws;
pub mod usb;
pub mod log;
pub mod client_state;
pub mod tables;
pub mod driver;

pub use application::Application;
pub use diagnostics::{Diagnostics, DiagnosticsBundle};
pub use environment::{InMemoryEnvironment, SavedClientStorage};
pub use model::{
    ApplicationSnapshot, AuthorizationState, ClientEvidence, ClientEvidenceKind,
    ClientNetworkObservation, DeviceIdentity, DeviceRole, HostSharingObservation,
    OperationFailure, ProfileKind, PuppisCandidate, RadioBand, RadioConfiguration, RadioSnapshot,
    RadioUpdate, RadioWriteEffect, RoleWriteEffect, SavedClient, StatusDimension, StatusLevel,
    UsbLinkSpeed, QUALIFIED_FIRMWARE,
};
