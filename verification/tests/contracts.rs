//! Concrete instances of the vocabulary's contracts and laws.

use signal_system::{
    FocusObservation, FocusSnapshot, FocusSubscription, FocusSubscriptionToken, NiriWindowId,
    ObservationTargetMissing, OwnerIdentity, SocketMode, SubscriptionRetracted, SystemBackend,
    SystemDaemonConfiguration, SystemDaemonConfigurationArchiveError,
    SystemDaemonConfigurationParts, SystemEvent, SystemOperationKind, SystemPrincipal,
    SystemRequest, SystemRequestUnimplemented, SystemStatusQuery, SystemStreamKind, SystemTarget,
    SystemUnimplementedReason, Target, UnixUserIdentifier, WindowClosed, WirePath,
};
use signal_system::text::decimal_text;

fn target() -> SystemTarget {
    SystemTarget::niri_window(223)
}

fn parts() -> SystemDaemonConfigurationParts {
    SystemDaemonConfigurationParts {
        system_socket_path: WirePath::new("/run/persona/X/system.sock"),
        system_socket_mode: SocketMode::new(0o600),
        supervision_socket_path: WirePath::new("/run/persona/X/system-supervision.sock"),
        supervision_socket_mode: SocketMode::new(0o660),
        backend: SystemBackend::Niri,
        owner_identity: OwnerIdentity::UnixUser(UnixUserIdentifier::new(1000)),
    }
}

#[test]
fn every_event_travels_on_the_focus_event_stream() {
    let events = [
        SystemEvent::FocusObservation(FocusObservation::new(target(), false, 42)),
        SystemEvent::WindowClosed(WindowClosed::from_target(target())),
    ];
    for event in events {
        assert_eq!(event.stream_kind(), SystemStreamKind::FocusEventStream);
    }
}

#[test]
fn no_request_both_opens_and_closes_a_stream() {
    let requests = [
        SystemRequest::WatchFocus(FocusSubscription::from_target(target())),
        SystemRequest::UnwatchFocus(FocusSubscriptionToken::from_target(target())),
        SystemRequest::QueryFocus(FocusSnapshot::from_target(target())),
        SystemRequest::QueryStatus(SystemStatusQuery::from_backend(SystemBackend::Niri)),
    ];
    for request in requests {
        assert!(!(request.opened_stream().is_some() && request.closed_stream().is_some()));
        assert_eq!(
            request.opened_stream().is_some(),
            request.operation_kind() == SystemOperationKind::WatchFocus
        );
        assert_eq!(
            request.closed_stream().is_some(),
            request.operation_kind() == SystemOperationKind::UnwatchFocus
        );
    }
}

#[test]
fn watch_opens_the_stream_unwatch_closes() {
    let watch = SystemRequest::WatchFocus(FocusSubscription::from_target(target()));
    let unwatch = SystemRequest::UnwatchFocus(FocusSubscriptionToken::from_target(target()));
    let event = SystemEvent::WindowClosed(WindowClosed::from_target(target()));
    assert_eq!(watch.opened_stream(), unwatch.closed_stream());
    assert_eq!(watch.opened_stream(), Some(event.stream_kind()));
}

#[test]
fn retraction_echoes_the_token() {
    let token = FocusSubscriptionToken::from_target(SystemTarget::niri_window(7));
    let retracted = SubscriptionRetracted::from_token(token);
    assert_eq!(retracted.token.0, token);
    assert_eq!(*retracted.token.payload(), token);
    assert_eq!(retracted.token.into_payload().target.system_target(), SystemTarget::niri_window(7));
    assert_eq!(
        token.target,
        FocusSubscription::from_target(SystemTarget::niri_window(7)).target
    );
    let other = SubscriptionRetracted::from_token(FocusSubscriptionToken::from_target(
        SystemTarget::niri_window(8),
    ));
    assert_ne!(retracted, other);
}

#[test]
fn from_conversions_match_named_constructors() {
    assert_eq!(FocusSubscription::from(target()), FocusSubscription::from_target(target()));
    assert_eq!(
        FocusSubscriptionToken::from(target()),
        FocusSubscriptionToken::from_target(target())
    );
    assert_eq!(FocusSnapshot::from(target()), FocusSnapshot::from_target(target()));
    assert_eq!(WindowClosed::from(target()), WindowClosed::from_target(target()));
    assert_eq!(
        ObservationTargetMissing::from(target()),
        ObservationTargetMissing::from_target(target())
    );
    assert_eq!(
        SystemStatusQuery::from(SystemBackend::Niri),
        SystemStatusQuery::from_backend(SystemBackend::Niri)
    );
    assert_eq!(FocusSnapshot::from_target(target()).target, Target::new(target()));
}

#[test]
fn targets_name_their_window() {
    let target = SystemTarget::niri_window(223);
    assert_eq!(target, SystemTarget::NiriWindow(NiriWindowId::new(223)));
    assert_eq!(target.niri_window_id(), Some(NiriWindowId::new(223)));
    assert_eq!(target.niri_window_id().map(|id| id.value()), Some(223));
}

#[test]
fn observation_fields_read_back() {
    let observation = FocusObservation::new(SystemTarget::niri_window(5), false, u64::MAX);
    assert_eq!(observation.target.system_target(), SystemTarget::niri_window(5));
    assert!(!observation.focused.as_bool());
    assert!(!observation.focused.into_bool());
    assert_eq!(observation.generation.into_u64(), u64::MAX);
    assert_eq!(observation.generation.into_payload().into_u64(), u64::MAX);
}

#[test]
fn unimplemented_record_keeps_its_parts() {
    let record = SystemRequestUnimplemented::from_parts(
        SystemOperationKind::QueryStatus,
        SystemUnimplementedReason::BackendUnavailable,
    );
    assert_eq!(record.operation.system_operation_kind(), SystemOperationKind::QueryStatus);
    assert_eq!(
        record.reason.system_unimplemented_reason(),
        SystemUnimplementedReason::BackendUnavailable
    );
}

#[test]
fn operation_heads_name_each_operation() {
    assert_eq!(SystemOperationKind::WatchFocus.head(), "WatchFocus");
    assert_eq!(SystemOperationKind::UnwatchFocus.head(), "UnwatchFocus");
    assert_eq!(SystemOperationKind::QueryFocus.head(), "QueryFocus");
    assert_eq!(SystemOperationKind::QueryStatus.head(), "QueryStatus");
}

#[test]
fn configuration_keeps_its_parts() {
    let configuration = SystemDaemonConfiguration::from(parts());
    assert_eq!(configuration.system_socket_path.as_str(), "/run/persona/X/system.sock");
    assert_eq!(
        configuration.supervision_socket_path.as_str(),
        "/run/persona/X/system-supervision.sock"
    );
    assert_eq!(configuration.system_socket_mode.into_u32(), 0o600);
    assert_eq!(configuration.supervision_socket_mode.into_u32(), 0o660);
    assert_eq!(configuration.backend.system_backend(), SystemBackend::Niri);
    assert_eq!(
        configuration.owner_identity,
        OwnerIdentity::UnixUser(UnixUserIdentifier::new(1000))
    );
}

#[test]
fn wire_paths_compare_and_display_as_text() {
    let path = WirePath::new("/run/persona/X/system.sock");
    assert_eq!(path.as_str(), "/run/persona/X/system.sock");
    assert_eq!(path.display_text(), "/run/persona/X/system.sock");
    let text: &str = path.as_ref();
    assert_eq!(text, "/run/persona/X/system.sock");
    assert!(path == "/run/persona/X/system.sock");
    assert!(path != "/run/persona/X/system-supervision.sock");
    assert_eq!(path.clone().into_payload(), "/run/persona/X/system.sock".to_string());
}

#[test]
fn socket_modes_compare_with_plain_bits() {
    let mode = SocketMode::new(0o600);
    assert!(mode == 384u64);
    assert!(mode != 385u64);
    assert!(mode < 385u64);
    assert!(mode > 383u64);
    assert_eq!(mode.partial_cmp(&384u64), Some(std::cmp::Ordering::Equal));
    assert_eq!(mode.display_text(), "384");
}

#[test]
fn narrowing_keeps_the_low_bits() {
    assert_eq!(SocketMode::new(0x1_0000_0180).into_u32(), 0x180);
    assert_eq!(UnixUserIdentifier::new(1000).as_u32(), 1000);
    assert_eq!(UnixUserIdentifier::new(0x2_0000_03e8).as_u32(), 1000);
}

#[test]
fn decimal_text_writes_every_digit() {
    assert_eq!(decimal_text(0), "0");
    assert_eq!(decimal_text(9), "9");
    assert_eq!(decimal_text(10), "10");
    assert_eq!(decimal_text(1000), "1000");
    assert_eq!(decimal_text(u64::MAX), "18446744073709551615");
}

#[test]
fn principals_read_back_their_name() {
    let principal = SystemPrincipal::new("persona");
    assert_eq!(principal.as_str(), "persona");
    let owner = OwnerIdentity::Principal(principal.clone());
    assert_eq!(owner, OwnerIdentity::Principal(SystemPrincipal::new("persona")));
}

#[test]
fn archive_errors_describe_themselves() {
    assert_eq!(
        SystemDaemonConfigurationArchiveError::Encode.message(),
        "failed to encode system daemon configuration archive"
    );
    assert_eq!(
        SystemDaemonConfigurationArchiveError::Decode.message(),
        "failed to decode system daemon configuration archive"
    );
}
