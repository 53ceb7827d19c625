//! Behaviour of the channel vocabulary: lifecycle metadata, operation heads and field
//! wrappers.

use signal_system::{
    Backend, FocusObservation, FocusSnapshot, FocusSubscription, FocusSubscriptionToken, Health,
    Kind, ObservationTargetMissing, OwnerIdentity, Readiness, SocketMode, SubscriptionAccepted,
    SubscriptionKind, SubscriptionRetracted, SystemBackend, SystemDaemonConfiguration,
    SystemDaemonConfigurationParts, SystemEvent, SystemHealth, SystemOperationKind,
    SystemReadiness, SystemReply, SystemRequest, SystemRequestUnimplemented, SystemStatus,
    SystemStatusQuery, SystemStreamKind, SystemTarget, SystemUnimplementedReason, Target,
    UnixUserIdentifier, WindowClosed, WirePath,
};

fn target() -> SystemTarget {
    SystemTarget::niri_window(223)
}

fn token() -> FocusSubscriptionToken {
    FocusSubscriptionToken::from_target(target())
}

fn observation(generation: u64) -> FocusObservation {
    FocusObservation::new(target(), true, generation)
}

#[test]
fn request_stream_lifecycle_metadata_is_available() {
    let watch = SystemRequest::WatchFocus(FocusSubscription::from_target(target()));
    let unwatch = SystemRequest::UnwatchFocus(token());
    let query = SystemRequest::QueryFocus(FocusSnapshot::from_target(target()));

    assert_eq!(
        watch.opened_stream(),
        Some(SystemStreamKind::FocusEventStream)
    );
    assert_eq!(watch.closed_stream(), None);
    assert_eq!(unwatch.opened_stream(), None);
    assert_eq!(
        unwatch.closed_stream(),
        Some(SystemStreamKind::FocusEventStream)
    );
    assert_eq!(query.opened_stream(), None);
    assert_eq!(query.closed_stream(), None);
}

#[test]
fn system_request_exposes_contract_owned_operation_kind() {
    let cases = [
        (
            SystemRequest::WatchFocus(FocusSubscription::from_target(target())),
            SystemOperationKind::WatchFocus,
        ),
        (
            SystemRequest::UnwatchFocus(token()),
            SystemOperationKind::UnwatchFocus,
        ),
        (
            SystemRequest::QueryFocus(FocusSnapshot::from_target(target())),
            SystemOperationKind::QueryFocus,
        ),
        (
            SystemRequest::QueryStatus(SystemStatusQuery::from_backend(SystemBackend::Niri)),
            SystemOperationKind::QueryStatus,
        ),
    ];

    for (request, operation) in cases {
        assert_eq!(request.operation_kind(), operation);
        assert_eq!(request.kind(), operation);
    }
}

#[test]
fn generated_field_wrappers_expose_payloads() {
    let observation = observation(42);
    assert_eq!(observation.target.system_target(), target());
    assert!(observation.focused.as_bool());
    assert_eq!(observation.generation.into_u64(), 42);

    let status = SystemStatus {
        backend: Backend::new(SystemBackend::Niri),
        health: Health::new(SystemHealth::Running),
        readiness: Readiness::new(SystemReadiness::Ready),
    };
    assert_eq!(status.backend.system_backend(), SystemBackend::Niri);
    assert_eq!(status.health.system_health(), SystemHealth::Running);
    assert_eq!(status.readiness.system_readiness(), SystemReadiness::Ready);
}

#[test]
fn system_request_variants_declare_contract_local_operation_heads() {
    assert_eq!(
        SystemRequest::operation_heads(),
        &["WatchFocus", "UnwatchFocus", "QueryFocus", "QueryStatus"]
    );
}

#[test]
fn system_contract_cannot_carry_terminal_prompt_gate_records() {
    let scan = DriftScan::new(declared_vocabulary());

    scan.assert_absent(&[
        "InputBuffer",
        "input-buffer",
        "prompt buffer",
        "prompt-buffer",
        "gate message delivery",
        "gate deliveries",
    ]);
}

/// One rendering of every request, reply and event variant, of the daemon
/// configuration, and the declared operation heads: the vocabulary this crate carries.
fn declared_vocabulary() -> Vec<String> {
    let mut texts: Vec<String> = SystemRequest::operation_heads()
        .into_iter()
        .map(|head| head.to_string())
        .collect();
    let requests = [
        SystemRequest::WatchFocus(FocusSubscription::from_target(target())),
        SystemRequest::UnwatchFocus(token()),
        SystemRequest::QueryFocus(FocusSnapshot::from_target(target())),
        SystemRequest::QueryStatus(SystemStatusQuery::from_backend(SystemBackend::Niri)),
    ];
    texts.extend(requests.iter().map(|request| format!("{request:?}")));
    let replies = [
        SystemReply::SubscriptionAccepted(SubscriptionAccepted {
            target: Target::new(target()),
            kind: Kind::new(SubscriptionKind::Focus),
        }),
        SystemReply::SubscriptionRetracted(SubscriptionRetracted::from_token(token())),
        SystemReply::ObservationTargetMissing(ObservationTargetMissing::from_target(target())),
        SystemReply::SystemStatus(SystemStatus {
            backend: Backend::new(SystemBackend::Niri),
            health: Health::new(SystemHealth::Running),
            readiness: Readiness::new(SystemReadiness::Ready),
        }),
        SystemReply::SystemRequestUnimplemented(SystemRequestUnimplemented::from_parts(
            SystemOperationKind::WatchFocus,
            SystemUnimplementedReason::NotBuiltYet,
        )),
        SystemReply::QueryFocusReply(observation(44)),
    ];
    texts.extend(replies.iter().map(|reply| format!("{reply:?}")));
    let events = [
        SystemEvent::FocusObservation(observation(42)),
        SystemEvent::WindowClosed(WindowClosed::from_target(target())),
    ];
    texts.extend(events.iter().map(|event| format!("{event:?}")));
    texts.push(format!("{:?}", configuration()));
    texts
}

fn configuration() -> SystemDaemonConfiguration {
    SystemDaemonConfiguration::from(SystemDaemonConfigurationParts {
        system_socket_path: WirePath::new("/run/persona/X/system.sock"),
        system_socket_mode: SocketMode::new(0o600),
        supervision_socket_path: WirePath::new("/run/persona/X/system-supervision.sock"),
        supervision_socket_mode: SocketMode::new(0o600),
        backend: SystemBackend::Niri,
        owner_identity: OwnerIdentity::UnixUser(UnixUserIdentifier::new(1000)),
    })
}

#[derive(Debug, Clone, PartialEq, Eq)]
struct DriftScan {
    texts: Vec<String>,
}

impl DriftScan {
    fn new(texts: Vec<String>) -> Self {
        Self { texts }
    }

    fn assert_absent(&self, forbidden_fragments: &[&str]) {
        assert!(!self.texts.is_empty());
        let mut violations = Vec::new();
        for text in &self.texts {
            for fragment in forbidden_fragments {
                if text.contains(fragment) {
                    violations.push(format!("{text} contains {fragment}"));
                }
            }
        }
        assert!(
            violations.is_empty(),
            "terminal prompt-gate records belong to signal-terminal:\n{}",
            violations.join("\n")
        );
    }
}
