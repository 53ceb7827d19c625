//! Typed wire vocabulary of the channel between `router` (request side) and `system`
//! (reply and event side).
//!
//! The router opens focus subscriptions with `WatchFocus`; the system acknowledges the
//! subscription, pushes focus events on the focus event stream, and acknowledges
//! `UnwatchFocus` retractions with a `SubscriptionRetracted` reply that echoes the token.

pub mod channel;
pub mod comparisons;
pub mod configuration;
pub mod records;
pub mod target;
pub mod text;
pub mod vocabulary;

pub use channel::{
    Input, OperationKind, Output, StreamKind, SystemEvent, SystemReply, SystemRequest,
    SystemStreamKind,
};
pub use configuration::{
    OwnerIdentity, SocketMode, SupervisionSocketMode, SupervisionSocketPath,
    SystemDaemonConfiguration, SystemDaemonConfigurationArchiveError,
    SystemDaemonConfigurationParts, SystemPrincipal, SystemSocketMode, SystemSocketPath,
    UnixUserIdentifier, WirePath,
};
pub use records::{
    FocusObservation, FocusSnapshot, FocusSubscription, FocusSubscriptionToken,
    ObservationTargetMissing, SubscriptionAccepted, SubscriptionRetracted,
    SystemRequestUnimplemented, SystemStatus, SystemStatusQuery, Token, WindowClosed,
};
pub use target::{Focused, Generation, NiriWindowId, ObservationGeneration, SystemTarget, Target};
pub use vocabulary::{
    Backend, Health, Kind, Operation, Readiness, Reason, SubscriptionKind, SystemBackend,
    SystemHealth, SystemOperationKind, SystemReadiness, SystemUnimplementedReason,
};
