//! Closed enums of the channel and the single-field records that carry them.

use vstd::prelude::*;

verus! {

/// The observation backend that `system` runs against.
#[derive(Clone, Copy, Debug, PartialEq, Eq, Structural)]
pub enum SystemBackend {
    Niri,
}

/// Daemon health as reported in a status reply.
#[derive(Clone, Copy, Debug, PartialEq, Eq, Structural)]
pub enum SystemHealth {
    Running,
    Degraded,
    Stopped,
}

/// Daemon readiness as reported in a status reply.
#[derive(Clone, Copy, Debug, PartialEq, Eq, Structural)]
pub enum SystemReadiness {
    Ready,
    Starting,
    Unavailable,
}

/// What an accepted subscription watches.
#[derive(Clone, Copy, Debug, PartialEq, Eq, Structural)]
pub enum SubscriptionKind {
    Focus,
}

/// The contract-local operation heads of the request side.
#[derive(Clone, Copy, Debug, PartialEq, Eq, Structural)]
pub enum SystemOperationKind {
    WatchFocus,
    UnwatchFocus,
    QueryFocus,
    QueryStatus,
}

/// Why a valid request was answered with `SystemRequestUnimplemented`.
#[derive(Clone, Copy, Debug, PartialEq, Eq, Structural)]
pub enum SystemUnimplementedReason {
    NotBuiltYet,
    BackendUnavailable,
}

/// The backend field of a record.
#[derive(Clone, Copy, Debug, PartialEq, Eq, Structural)]
pub struct Backend(pub SystemBackend);

/// The subscription-kind field of a record.
#[derive(Clone, Copy, Debug, PartialEq, Eq, Structural)]
pub struct Kind(pub SubscriptionKind);

/// The health field of a status record.
#[derive(Clone, Copy, Debug, PartialEq, Eq, Structural)]
pub struct Health(pub SystemHealth);

/// The readiness field of a status record.
#[derive(Clone, Copy, Debug, PartialEq, Eq, Structural)]
pub struct Readiness(pub SystemReadiness);

/// The operation field of an unimplemented-request record.
#[derive(Clone, Copy, Debug, PartialEq, Eq, Structural)]
pub struct Operation(pub SystemOperationKind);

/// The reason field of an unimplemented-request record.
#[derive(Clone, Copy, Debug, PartialEq, Eq, Structural)]
pub struct Reason(pub SystemUnimplementedReason);

impl SystemOperationKind {
    /// The head under which this operation travels on the wire.
    #[verifier::allow_in_spec]
    pub fn head(&self) -> &'static str
        returns
            match self {
                SystemOperationKind::WatchFocus => "WatchFocus",
                SystemOperationKind::UnwatchFocus => "UnwatchFocus",
                SystemOperationKind::QueryFocus => "QueryFocus",
                SystemOperationKind::QueryStatus => "QueryStatus",
            },
    {
        match self {
            Self::WatchFocus => "WatchFocus",
            Self::UnwatchFocus => "UnwatchFocus",
            Self::QueryFocus => "QueryFocus",
            Self::QueryStatus => "QueryStatus",
        }
    }
}

/// Distinct operations travel under distinct heads, so a head names its operation.
pub proof fn lemma_head_names_the_operation(a: SystemOperationKind, b: SystemOperationKind)
    ensures
        a.head()@ == b.head()@ <==> a == b,
{
    reveal_strlit("WatchFocus");
    reveal_strlit("UnwatchFocus");
    reveal_strlit("QueryFocus");
    reveal_strlit("QueryStatus");
    if a != b {
        assert(a.head()@.len() != b.head()@.len() || a.head()@[0] != b.head()@[0]);
    }
}

impl Backend {
    pub fn new(payload: SystemBackend) -> (field: Self)
        ensures
            field.0 == payload,
    {
        Backend(payload)
    }

    pub fn payload(&self) -> (payload: &SystemBackend)
        ensures
            *payload == self.0,
    {
        &self.0
    }

    pub fn into_payload(self) -> (payload: SystemBackend)
        ensures
            payload == self.0,
    {
        self.0
    }

    /// The carried backend.
    #[verifier::allow_in_spec]
    pub fn system_backend(&self) -> SystemBackend
        returns
            self.0,
    {
        *self.payload()
    }
}

impl Kind {
    pub fn new(payload: SubscriptionKind) -> (field: Self)
        ensures
            field.0 == payload,
    {
        Kind(payload)
    }

    pub fn payload(&self) -> (payload: &SubscriptionKind)
        ensures
            *payload == self.0,
    {
        &self.0
    }

    pub fn into_payload(self) -> (payload: SubscriptionKind)
        ensures
            payload == self.0,
    {
        self.0
    }

    /// The carried subscription kind.
    #[verifier::allow_in_spec]
    pub fn subscription_kind(&self) -> SubscriptionKind
        returns
            self.0,
    {
        *self.payload()
    }
}

impl Health {
    pub fn new(payload: SystemHealth) -> (field: Self)
        ensures
            field.0 == payload,
    {
        Health(payload)
    }

    pub fn payload(&self) -> (payload: &SystemHealth)
        ensures
            *payload == self.0,
    {
        &self.0
    }

    pub fn into_payload(self) -> (payload: SystemHealth)
        ensures
            payload == self.0,
    {
        self.0
    }

    /// The carried health.
    #[verifier::allow_in_spec]
    pub fn system_health(&self) -> SystemHealth
        returns
            self.0,
    {
        *self.payload()
    }
}

impl Readiness {
    pub fn new(payload: SystemReadiness) -> (field: Self)
        ensures
            field.0 == payload,
    {
        Readiness(payload)
    }

    pub fn payload(&self) -> (payload: &SystemReadiness)
        ensures
            *payload == self.0,
    {
        &self.0
    }

    pub fn into_payload(self) -> (payload: SystemReadiness)
        ensures
            payload == self.0,
    {
        self.0
    }

    /// The carried readiness.
    #[verifier::allow_in_spec]
    pub fn system_readiness(&self) -> SystemReadiness
        returns
            self.0,
    {
        *self.payload()
    }
}

impl Operation {
    pub fn new(payload: SystemOperationKind) -> (field: Self)
        ensures
            field.0 == payload,
    {
        Operation(payload)
    }

    pub fn payload(&self) -> (payload: &SystemOperationKind)
        ensures
            *payload == self.0,
    {
        &self.0
    }

    pub fn into_payload(self) -> (payload: SystemOperationKind)
        ensures
            payload == self.0,
    {
        self.0
    }

    /// The carried operation kind.
    #[verifier::allow_in_spec]
    pub fn system_operation_kind(&self) -> SystemOperationKind
        returns
            self.0,
    {
        *self.payload()
    }
}

impl Reason {
    pub fn new(payload: SystemUnimplementedReason) -> (field: Self)
        ensures
            field.0 == payload,
    {
        Reason(payload)
    }

    pub fn payload(&self) -> (payload: &SystemUnimplementedReason)
        ensures
            *payload == self.0,
    {
        &self.0
    }

    pub fn into_payload(self) -> (payload: SystemUnimplementedReason)
        ensures
            payload == self.0,
    {
        self.0
    }

    /// The carried reason.
    #[verifier::allow_in_spec]
    pub fn system_unimplemented_reason(&self) -> SystemUnimplementedReason
        returns
            self.0,
    {
        *self.payload()
    }
}

} // verus!
