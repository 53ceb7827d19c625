//! Observation targets and the fields of a focus observation.

use vstd::prelude::*;

verus! {

/// The identifier Niri gives a window.
#[derive(Clone, Copy, Debug, PartialEq, Eq, Structural)]
pub struct NiriWindowId(pub u64);

/// A monotonically minted observation counter; only the daemon mints one.
#[derive(Clone, Copy, Debug, PartialEq, Eq, Structural)]
pub struct ObservationGeneration(pub u64);

/// What a subscription, snapshot or observation is about.
#[derive(Clone, Copy, Debug, PartialEq, Eq, Structural)]
pub enum SystemTarget {
    NiriWindow(NiriWindowId),
}

/// The target field of a record.
#[derive(Clone, Copy, Debug, PartialEq, Eq, Structural)]
pub struct Target(pub SystemTarget);

/// The focused flag of an observation.
#[derive(Clone, Copy, Debug, PartialEq, Eq, Structural)]
pub struct Focused(pub bool);

/// The generation field of an observation.
#[derive(Clone, Copy, Debug, PartialEq, Eq, Structural)]
pub struct Generation(pub ObservationGeneration);

impl NiriWindowId {
    pub fn new(payload: u64) -> (id: Self)
        ensures
            id.0 == payload,
    {
        NiriWindowId(payload)
    }

    pub fn payload(&self) -> (payload: &u64)
        ensures
            *payload == self.0,
    {
        &self.0
    }

    pub fn into_payload(self) -> (payload: u64)
        ensures
            payload == self.0,
    {
        self.0
    }

    /// The raw window number.
    #[verifier::allow_in_spec]
    pub fn value(self) -> u64
        returns
            self.0,
    {
        self.into_payload()
    }
}

impl ObservationGeneration {
    pub fn new(payload: u64) -> (generation: Self)
        ensures
            generation.0 == payload,
    {
        ObservationGeneration(payload)
    }

    pub fn payload(&self) -> (payload: &u64)
        ensures
            *payload == self.0,
    {
        &self.0
    }

    pub fn into_payload(self) -> (payload: u64)
        ensures
            payload == self.0,
    {
        self.0
    }

    /// The raw counter value.
    #[verifier::allow_in_spec]
    pub fn into_u64(self) -> u64
        returns
            self.0,
    {
        self.into_payload()
    }
}

impl SystemTarget {
    /// The window number a target names, taken as a plain value.
    pub open spec fn window_number(self) -> u64 {
        match self {
            SystemTarget::NiriWindow(id) => id.0,
        }
    }

    /// The target naming Niri window `id`.
    pub fn niri_window(id: u64) -> (target: Self)
        ensures
            target == SystemTarget::NiriWindow(NiriWindowId(id)),
            target.window_number() == id,
    {
        SystemTarget::NiriWindow(NiriWindowId::new(id))
    }

    /// The Niri window a target names; every target of this backend names one.
    #[verifier::allow_in_spec]
    pub fn niri_window_id(self) -> Option<NiriWindowId>
        returns
            Some(NiriWindowId(self.window_number())),
    {
        match self {
            Self::NiriWindow(window_id) => Some(window_id),
        }
    }
}

impl Target {
    pub fn new(payload: SystemTarget) -> (field: Self)
        ensures
            field.0 == payload,
    {
        Target(payload)
    }

    pub fn payload(&self) -> (payload: &SystemTarget)
        ensures
            *payload == self.0,
    {
        &self.0
    }

    pub fn into_payload(self) -> (payload: SystemTarget)
        ensures
            payload == self.0,
    {
        self.0
    }

    /// The carried target.
    #[verifier::allow_in_spec]
    pub fn system_target(&self) -> SystemTarget
        returns
            self.0,
    {
        *self.payload()
    }
}

impl Focused {
    pub fn new(payload: bool) -> (field: Self)
        ensures
            field.0 == payload,
    {
        Focused(payload)
    }

    pub fn payload(&self) -> (payload: &bool)
        ensures
            *payload == self.0,
    {
        &self.0
    }

    pub fn into_payload(self) -> (payload: bool)
        ensures
            payload == self.0,
    {
        self.0
    }

    /// Whether the target held focus, read through a reference.
    #[verifier::allow_in_spec]
    pub fn as_bool(&self) -> bool
        returns
            self.0,
    {
        *self.payload()
    }

    /// Whether the target held focus.
    #[verifier::allow_in_spec]
    pub fn into_bool(self) -> bool
        returns
            self.0,
    {
        self.into_payload()
    }
}

impl Generation {
    pub fn new(payload: ObservationGeneration) -> (field: Self)
        ensures
            field.0 == payload,
    {
        Generation(payload)
    }

    pub fn payload(&self) -> (payload: &ObservationGeneration)
        ensures
            *payload == self.0,
    {
        &self.0
    }

    pub fn into_payload(self) -> (payload: ObservationGeneration)
        ensures
            payload == self.0,
    {
        self.0
    }

    /// The raw generation counter.
    #[verifier::allow_in_spec]
    pub fn into_u64(self) -> u64
        returns
            self.0.0,
    {
        self.into_payload().into_u64()
    }
}

} // verus!
