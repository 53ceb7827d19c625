//! Payload records of requests, replies and events.

use vstd::prelude::*;
use vstd::std_specs::convert::FromSpec;

use crate::target::{Focused, Generation, ObservationGeneration, SystemTarget, Target};
use crate::vocabulary::{
    Backend, Health, Kind, Operation, Readiness, Reason, SystemBackend, SystemOperationKind,
    SystemUnimplementedReason,
};

verus! {

/// Request payload of `WatchFocus`: the target whose focus changes are wanted.
#[derive(Clone, Copy, Debug, PartialEq, Eq, Structural)]
pub struct FocusSubscription {
    pub target: Target,
}

/// The per-stream token that an `UnwatchFocus` carries and its acknowledgement echoes.
#[derive(Clone, Copy, Debug, PartialEq, Eq, Structural)]
pub struct FocusSubscriptionToken {
    pub target: Target,
}

/// Request payload of `QueryFocus`.
#[derive(Clone, Copy, Debug, PartialEq, Eq, Structural)]
pub struct FocusSnapshot {
    pub target: Target,
}

/// Request payload of `QueryStatus`.
#[derive(Clone, Copy, Debug, PartialEq, Eq, Structural)]
pub struct SystemStatusQuery {
    pub backend: Backend,
}

/// One focus observation, pushed as an event or returned by a focus query.
#[derive(Clone, Copy, Debug, PartialEq, Eq, Structural)]
pub struct FocusObservation {
    pub target: Target,
    pub focused: Focused,
    pub generation: Generation,
}

/// Event: the observed window went away.
#[derive(Clone, Copy, Debug, PartialEq, Eq, Structural)]
pub struct WindowClosed {
    pub target: Target,
}

/// Reply to `WatchFocus`: the subscription is open.
#[derive(Clone, Copy, Debug, PartialEq, Eq, Structural)]
pub struct SubscriptionAccepted {
    pub target: Target,
    pub kind: Kind,
}

/// Reply naming a target that the daemon cannot observe.
#[derive(Clone, Copy, Debug, PartialEq, Eq, Structural)]
pub struct ObservationTargetMissing {
    pub target: Target,
}

/// Reply to `QueryStatus`.
#[derive(Clone, Copy, Debug, PartialEq, Eq, Structural)]
pub struct SystemStatus {
    pub backend: Backend,
    pub health: Health,
    pub readiness: Readiness,
}

/// The token field of a retraction acknowledgement.
#[derive(Clone, Copy, Debug, PartialEq, Eq, Structural)]
pub struct Token(pub FocusSubscriptionToken);

/// Reply to `UnwatchFocus`, echoing the retracted token.
#[derive(Clone, Copy, Debug, PartialEq, Eq, Structural)]
pub struct SubscriptionRetracted {
    pub token: Token,
}

/// Reply to a valid request whose behaviour is not built yet.
#[derive(Clone, Copy, Debug, PartialEq, Eq, Structural)]
pub struct SystemRequestUnimplemented {
    pub operation: Operation,
    pub reason: Reason,
}

impl FocusSubscription {
    pub fn new(target: Target) -> (subscription: Self)
        ensures
            subscription.target == target,
    {
        FocusSubscription { target }
    }

    /// Subscribe to focus changes of `target`.
    #[verifier::allow_in_spec]
    pub fn from_target(target: SystemTarget) -> Self
        returns
            (FocusSubscription { target: Target(target) }),
    {
        Self::new(Target::new(target))
    }
}

impl From<SystemTarget> for FocusSubscription {
    fn from(target: SystemTarget) -> (subscription: Self)
        ensures
            subscription.target.system_target() == target,
    {
        Self::from_target(target)
    }
}

impl vstd::std_specs::convert::FromSpecImpl<SystemTarget> for FocusSubscription {
    open spec fn obeys_from_spec() -> bool {
        true
    }

    open spec fn from_spec(target: SystemTarget) -> Self {
        Self::from_target(target)
    }
}

impl FocusSubscriptionToken {
    pub fn new(target: Target) -> (token: Self)
        ensures
            token.target == target,
    {
        FocusSubscriptionToken { target }
    }

    /// The token of the focus stream opened for `target`.
    #[verifier::allow_in_spec]
    pub fn from_target(target: SystemTarget) -> Self
        returns
            (FocusSubscriptionToken { target: Target(target) }),
    {
        Self::new(Target::new(target))
    }
}

impl From<SystemTarget> for FocusSubscriptionToken {
    fn from(target: SystemTarget) -> (token: Self)
        ensures
            token.target.system_target() == target,
    {
        Self::from_target(target)
    }
}

impl vstd::std_specs::convert::FromSpecImpl<SystemTarget> for FocusSubscriptionToken {
    open spec fn obeys_from_spec() -> bool {
        true
    }

    open spec fn from_spec(target: SystemTarget) -> Self {
        Self::from_target(target)
    }
}

impl FocusSnapshot {
    pub fn new(target: Target) -> (snapshot: Self)
        ensures
            snapshot.target == target,
    {
        FocusSnapshot { target }
    }

    /// Ask for the current focus state of `target`.
    #[verifier::allow_in_spec]
    pub fn from_target(target: SystemTarget) -> Self
        returns
            (FocusSnapshot { target: Target(target) }),
    {
        Self::new(Target::new(target))
    }
}

impl From<SystemTarget> for FocusSnapshot {
    fn from(target: SystemTarget) -> (snapshot: Self)
        ensures
            snapshot.target.system_target() == target,
    {
        Self::from_target(target)
    }
}

impl vstd::std_specs::convert::FromSpecImpl<SystemTarget> for FocusSnapshot {
    open spec fn obeys_from_spec() -> bool {
        true
    }

    open spec fn from_spec(target: SystemTarget) -> Self {
        Self::from_target(target)
    }
}

impl SystemStatusQuery {
    pub fn new(backend: Backend) -> (query: Self)
        ensures
            query.backend == backend,
    {
        SystemStatusQuery { backend }
    }

    /// Ask for the status of `backend`.
    #[verifier::allow_in_spec]
    pub fn from_backend(backend: SystemBackend) -> Self
        returns
            (SystemStatusQuery { backend: Backend(backend) }),
    {
        Self::new(Backend::new(backend))
    }
}

impl From<SystemBackend> for SystemStatusQuery {
    fn from(backend: SystemBackend) -> (query: Self)
        ensures
            query.backend.system_backend() == backend,
    {
        Self::from_backend(backend)
    }
}

impl vstd::std_specs::convert::FromSpecImpl<SystemBackend> for SystemStatusQuery {
    open spec fn obeys_from_spec() -> bool {
        true
    }

    open spec fn from_spec(backend: SystemBackend) -> Self {
        Self::from_backend(backend)
    }
}

impl FocusObservation {
    /// An observation of `target`, focused or not, at `generation`.
    #[verifier::allow_in_spec]
    pub fn new(target: SystemTarget, focused: bool, generation: u64) -> Self
        returns
            (FocusObservation {
                target: Target(target),
                focused: Focused(focused),
                generation: Generation(ObservationGeneration(generation)),
            }),
    {
        Self {
            target: Target::new(target),
            focused: Focused::new(focused),
            generation: Generation::new(ObservationGeneration::new(generation)),
        }
    }
}

impl WindowClosed {
    pub fn new(target: Target) -> (closed: Self)
        ensures
            closed.target == target,
    {
        WindowClosed { target }
    }

    /// The window behind `target` closed.
    #[verifier::allow_in_spec]
    pub fn from_target(target: SystemTarget) -> Self
        returns
            (WindowClosed { target: Target(target) }),
    {
        Self::new(Target::new(target))
    }
}

impl From<SystemTarget> for WindowClosed {
    fn from(target: SystemTarget) -> (closed: Self)
        ensures
            closed.target.system_target() == target,
    {
        Self::from_target(target)
    }
}

impl vstd::std_specs::convert::FromSpecImpl<SystemTarget> for WindowClosed {
    open spec fn obeys_from_spec() -> bool {
        true
    }

    open spec fn from_spec(target: SystemTarget) -> Self {
        Self::from_target(target)
    }
}

impl ObservationTargetMissing {
    pub fn new(target: Target) -> (missing: Self)
        ensures
            missing.target == target,
    {
        ObservationTargetMissing { target }
    }

    /// `target` cannot be observed.
    #[verifier::allow_in_spec]
    pub fn from_target(target: SystemTarget) -> Self
        returns
            (ObservationTargetMissing { target: Target(target) }),
    {
        Self::new(Target::new(target))
    }
}

impl From<SystemTarget> for ObservationTargetMissing {
    fn from(target: SystemTarget) -> (missing: Self)
        ensures
            missing.target.system_target() == target,
    {
        Self::from_target(target)
    }
}

impl vstd::std_specs::convert::FromSpecImpl<SystemTarget> for ObservationTargetMissing {
    open spec fn obeys_from_spec() -> bool {
        true
    }

    open spec fn from_spec(target: SystemTarget) -> Self {
        Self::from_target(target)
    }
}

impl Token {
    pub fn new(payload: FocusSubscriptionToken) -> (field: Self)
        ensures
            field.0 == payload,
    {
        Token(payload)
    }

    pub fn payload(&self) -> (payload: &FocusSubscriptionToken)
        ensures
            *payload == self.0,
    {
        &self.0
    }

    pub fn into_payload(self) -> (payload: FocusSubscriptionToken)
        ensures
            payload == self.0,
    {
        self.0
    }
}

impl SubscriptionRetracted {
    pub fn new(token: Token) -> (retracted: Self)
        ensures
            retracted.token == token,
    {
        SubscriptionRetracted { token }
    }

    /// The acknowledgement of retracting the stream named by `token`.
    #[verifier::allow_in_spec]
    pub fn from_token(token: FocusSubscriptionToken) -> Self
        returns
            (SubscriptionRetracted { token: Token(token) }),
    {
        Self::new(Token::new(token))
    }
}

impl SystemRequestUnimplemented {
    /// `operation` is valid but not built, for `reason`.
    #[verifier::allow_in_spec]
    pub fn from_parts(operation: SystemOperationKind, reason: SystemUnimplementedReason) -> Self
        returns
            (SystemRequestUnimplemented { operation: Operation(operation), reason: Reason(reason) }),
    {
        Self { operation: Operation::new(operation), reason: Reason::new(reason) }
    }
}

/// Converting a target into a request, reply or event payload keeps that target: the
/// payload names exactly the window it was built for, whether built by `From` or by the
/// named constructor.
pub proof fn lemma_target_conversions_keep_the_target(target: SystemTarget)
    ensures
        <FocusSubscription as FromSpec<SystemTarget>>::from_spec(target).target.system_target() == target,
        <FocusSubscription as FromSpec<SystemTarget>>::from_spec(target) == FocusSubscription::from_target(target),
        FocusSubscription::from_target(target).target.system_target() == target,
        <FocusSubscriptionToken as FromSpec<SystemTarget>>::from_spec(target).target.system_target() == target,
        <FocusSubscriptionToken as FromSpec<SystemTarget>>::from_spec(target) == FocusSubscriptionToken::from_target(target),
        FocusSubscriptionToken::from_target(target).target.system_target() == target,
        <FocusSnapshot as FromSpec<SystemTarget>>::from_spec(target).target.system_target() == target,
        <FocusSnapshot as FromSpec<SystemTarget>>::from_spec(target) == FocusSnapshot::from_target(target),
        FocusSnapshot::from_target(target).target.system_target() == target,
        <WindowClosed as FromSpec<SystemTarget>>::from_spec(target).target.system_target() == target,
        <WindowClosed as FromSpec<SystemTarget>>::from_spec(target) == WindowClosed::from_target(target),
        WindowClosed::from_target(target).target.system_target() == target,
        <ObservationTargetMissing as FromSpec<SystemTarget>>::from_spec(target).target.system_target() == target,
        <ObservationTargetMissing as FromSpec<SystemTarget>>::from_spec(target) == ObservationTargetMissing::from_target(target),
        ObservationTargetMissing::from_target(target).target.system_target() == target,
{
}

/// Two targets give equal subscriptions, and equal tokens, exactly when they are the same
/// target: a token never names another window's stream.
pub proof fn lemma_distinct_targets_give_distinct_tokens(a: SystemTarget, b: SystemTarget)
    ensures
        (<FocusSubscriptionToken as FromSpec<SystemTarget>>::from_spec(a)
            == <FocusSubscriptionToken as FromSpec<SystemTarget>>::from_spec(b)) <==> a == b,
        (<FocusSubscription as FromSpec<SystemTarget>>::from_spec(a)
            == <FocusSubscription as FromSpec<SystemTarget>>::from_spec(b)) <==> a == b,
        a.window_number() != b.window_number() ==> FocusSubscriptionToken::from_target(a).target.system_target().window_number()
            != FocusSubscriptionToken::from_target(b).target.system_target().window_number(),
{
}

/// Converting a backend into a status query keeps that backend.
pub proof fn lemma_backend_conversion_keeps_the_backend(backend: SystemBackend)
    ensures
        <SystemStatusQuery as FromSpec<SystemBackend>>::from_spec(backend).backend.system_backend() == backend,
        <SystemStatusQuery as FromSpec<SystemBackend>>::from_spec(backend) == SystemStatusQuery::from_backend(backend),
{
}

/// What an observation is built from is what its field accessors read back.
pub proof fn lemma_observation_fields_read_back(target: SystemTarget, focused: bool, generation: u64)
    ensures
        FocusObservation::new(target, focused, generation).target.system_target() == target,
        FocusObservation::new(target, focused, generation).focused.as_bool() == focused,
        FocusObservation::new(target, focused, generation).focused.into_bool() == focused,
        FocusObservation::new(target, focused, generation).generation.into_u64() == generation,
{
}

/// Path A: the subscription, its stream token and the retraction acknowledgement built
/// for one target all name that target, and the acknowledgement echoes the token it is
/// built from.
pub proof fn lemma_retraction_echoes_the_subscription_token(target: SystemTarget)
    ensures
        FocusSubscriptionToken::from_target(target).target == FocusSubscription::from_target(target).target,
        SubscriptionRetracted::from_token(FocusSubscriptionToken::from_target(target)).token.0
            == FocusSubscriptionToken::from_target(target),
        SubscriptionRetracted::from_token(FocusSubscriptionToken::from_target(target)).token.0.target.system_target()
            == target,
{
}

/// Two acknowledgements are equal exactly when they echo equal tokens, so a retraction
/// acknowledgement identifies the stream it closes.
pub proof fn lemma_retraction_identifies_token(a: FocusSubscriptionToken, b: FocusSubscriptionToken)
    ensures
        (SubscriptionRetracted::from_token(a) == SubscriptionRetracted::from_token(b)) <==> (a == b),
{
}

} // verus!
