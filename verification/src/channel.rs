//! Requests, replies and events of the channel, and the stream lifecycle they declare.

use vstd::prelude::*;

use crate::records::{
    FocusObservation, FocusSnapshot, FocusSubscription, FocusSubscriptionToken,
    ObservationTargetMissing, SubscriptionAccepted, SubscriptionRetracted, SystemRequestUnimplemented,
    SystemStatus, SystemStatusQuery, WindowClosed,
};
use crate::vocabulary::SystemOperationKind;

verus! {

/// The streams a request can open or close, and that events travel on.
#[derive(Clone, Copy, Debug, PartialEq, Eq, Structural)]
pub enum SystemStreamKind {
    FocusEventStream,
}

/// The request side of the channel (router to system).
#[derive(Clone, Copy, Debug, PartialEq, Eq, Structural)]
pub enum Input {
    WatchFocus(FocusSubscription),
    UnwatchFocus(FocusSubscriptionToken),
    QueryFocus(FocusSnapshot),
    QueryStatus(SystemStatusQuery),
}

/// The direct-reply side of the channel (system to router).
#[derive(Clone, Copy, Debug, PartialEq, Eq, Structural)]
pub enum Output {
    SubscriptionAccepted(SubscriptionAccepted),
    SubscriptionRetracted(SubscriptionRetracted),
    ObservationTargetMissing(ObservationTargetMissing),
    SystemStatus(SystemStatus),
    SystemRequestUnimplemented(SystemRequestUnimplemented),
    QueryFocusReply(FocusObservation),
}

/// Events pushed on an open focus stream.
#[derive(Clone, Copy, Debug, PartialEq, Eq, Structural)]
pub enum SystemEvent {
    FocusObservation(FocusObservation),
    WindowClosed(WindowClosed),
}

pub type SystemRequest = Input;

pub type SystemReply = Output;

pub type OperationKind = SystemOperationKind;

pub type StreamKind = SystemStreamKind;

impl Input {
    /// The operation head of this request.
    #[verifier::allow_in_spec]
    pub fn operation_kind(&self) -> SystemOperationKind
        returns
            match self {
                Input::WatchFocus(_) => SystemOperationKind::WatchFocus,
                Input::UnwatchFocus(_) => SystemOperationKind::UnwatchFocus,
                Input::QueryFocus(_) => SystemOperationKind::QueryFocus,
                Input::QueryStatus(_) => SystemOperationKind::QueryStatus,
            },
    {
        match self {
            Self::WatchFocus(_) => SystemOperationKind::WatchFocus,
            Self::UnwatchFocus(_) => SystemOperationKind::UnwatchFocus,
            Self::QueryFocus(_) => SystemOperationKind::QueryFocus,
            Self::QueryStatus(_) => SystemOperationKind::QueryStatus,
        }
    }
}


impl Input {
    /// The operation head of this request; the same as [`Input::operation_kind`].
    #[verifier::allow_in_spec]
    pub fn kind(&self) -> SystemOperationKind
        returns
            self.operation_kind(),
    {
        self.operation_kind()
    }

    /// The stream this request opens: `WatchFocus` opens the focus event stream.
    #[verifier::allow_in_spec]
    pub fn opened_stream(&self) -> Option<SystemStreamKind>
        returns
            if self is WatchFocus {
                Some(SystemStreamKind::FocusEventStream)
            } else {
                None
            },
    {
        match self {
            Self::WatchFocus(_) => Some(SystemStreamKind::FocusEventStream),
            Self::UnwatchFocus(_) | Self::QueryFocus(_) | Self::QueryStatus(_) => None,
        }
    }

    /// The stream this request closes: `UnwatchFocus` retracts the focus event stream.
    #[verifier::allow_in_spec]
    pub fn closed_stream(&self) -> Option<SystemStreamKind>
        returns
            if self is UnwatchFocus {
                Some(SystemStreamKind::FocusEventStream)
            } else {
                None
            },
    {
        match self {
            Self::UnwatchFocus(_) => Some(SystemStreamKind::FocusEventStream),
            Self::WatchFocus(_) | Self::QueryFocus(_) | Self::QueryStatus(_) => None,
        }
    }
}

impl Input {
    /// The operation heads of the request side, in declaration order.
    pub fn operation_heads() -> (heads: Vec<&'static str>)
        ensures
            heads@ == seq![
                SystemOperationKind::WatchFocus.head(),
                SystemOperationKind::UnwatchFocus.head(),
                SystemOperationKind::QueryFocus.head(),
                SystemOperationKind::QueryStatus.head(),
            ],
            heads@[0]@ == "WatchFocus"@,
            heads@[1]@ == "UnwatchFocus"@,
            heads@[2]@ == "QueryFocus"@,
            heads@[3]@ == "QueryStatus"@,
    {
        let mut heads: Vec<&'static str> = Vec::new();
        heads.push(SystemOperationKind::WatchFocus.head());
        heads.push(SystemOperationKind::UnwatchFocus.head());
        heads.push(SystemOperationKind::QueryFocus.head());
        heads.push(SystemOperationKind::QueryStatus.head());
        heads
    }
}

impl SystemEvent {
    /// The stream every event travels on.
    #[verifier::allow_in_spec]
    pub fn stream_kind(&self) -> SystemStreamKind
        returns
            SystemStreamKind::FocusEventStream,
    {
        match self {
            Self::FocusObservation(_) | Self::WindowClosed(_) => SystemStreamKind::FocusEventStream,
        }
    }
}

/// A request opens a stream exactly when its operation head is `WatchFocus`, and closes
/// one exactly when its head is `UnwatchFocus`; so no request both opens and closes.
pub proof fn lemma_stream_effect_follows_operation_head(request: Input)
    ensures
        request.opened_stream() is Some <==> request.operation_kind() == SystemOperationKind::WatchFocus,
        request.closed_stream() is Some <==> request.operation_kind() == SystemOperationKind::UnwatchFocus,
        !(request.opened_stream() is Some && request.closed_stream() is Some),
{
}

/// Path A lifecycle: the stream that a `WatchFocus` opens is the stream that an
/// `UnwatchFocus` closes, and it is the stream on which every event is pushed.
pub proof fn lemma_watch_and_unwatch_bracket_the_event_stream(
    watch: Input,
    unwatch: Input,
    event: SystemEvent,
)
    requires
        watch is WatchFocus,
        unwatch is UnwatchFocus,
    ensures
        watch.opened_stream() == Some(event.stream_kind()),
        unwatch.closed_stream() == Some(event.stream_kind()),
        watch.opened_stream() == unwatch.closed_stream(),
{
}

/// Every request travels under one of the declared operation heads: the one at the index
/// of its operation kind.
pub proof fn lemma_request_head_is_declared(request: Input)
    ensures
        ({
            let heads = seq![
                SystemOperationKind::WatchFocus.head(),
                SystemOperationKind::UnwatchFocus.head(),
                SystemOperationKind::QueryFocus.head(),
                SystemOperationKind::QueryStatus.head(),
            ];
            heads.contains(request.operation_kind().head())
        }),
{
    let heads = seq![
        SystemOperationKind::WatchFocus.head(),
        SystemOperationKind::UnwatchFocus.head(),
        SystemOperationKind::QueryFocus.head(),
        SystemOperationKind::QueryStatus.head(),
    ];
    match request {
        Input::WatchFocus(_) => assert(heads[0] == request.operation_kind().head()),
        Input::UnwatchFocus(_) => assert(heads[1] == request.operation_kind().head()),
        Input::QueryFocus(_) => assert(heads[2] == request.operation_kind().head()),
        Input::QueryStatus(_) => assert(heads[3] == request.operation_kind().head()),
    }
}

/// Two requests share an operation head exactly when they are the same kind of request.
pub proof fn lemma_operation_head_names_the_variant(a: Input, b: Input)
    ensures
        (a.operation_kind() == b.operation_kind()) <==> {
            &&& (a is WatchFocus <==> b is WatchFocus)
            &&& (a is UnwatchFocus <==> b is UnwatchFocus)
            &&& (a is QueryFocus <==> b is QueryFocus)
            &&& (a is QueryStatus <==> b is QueryStatus)
        },
        a.kind() == a.operation_kind(),
{
}

} // verus!
