//! The binary startup configuration of the `system` daemon and its fields.

use vstd::prelude::*;
use vstd::std_specs::convert::FromSpec;

use crate::text::{decimal_digits, decimal_text};
use crate::vocabulary::{Backend, SystemBackend};

verus! {

/// A filesystem path carried on the wire.
#[derive(Debug, PartialEq, Eq)]
pub struct WirePath(pub String);

/// Unix permission bits of a socket.
#[derive(Clone, Copy, Debug, PartialEq, Eq, Structural)]
pub struct SocketMode(pub u64);

/// The path of the socket the router talks to.
#[derive(Debug, PartialEq, Eq)]
pub struct SystemSocketPath(pub WirePath);

/// The permission bits of the router-facing socket.
#[derive(Clone, Copy, Debug, PartialEq, Eq, Structural)]
pub struct SystemSocketMode(pub SocketMode);

/// The path of the supervision socket.
#[derive(Debug, PartialEq, Eq)]
pub struct SupervisionSocketPath(pub WirePath);

/// The permission bits of the supervision socket.
#[derive(Clone, Copy, Debug, PartialEq, Eq, Structural)]
pub struct SupervisionSocketMode(pub SocketMode);

/// A Unix user id.
#[derive(Clone, Copy, Debug, PartialEq, Eq, Structural)]
pub struct UnixUserIdentifier(pub u64);

/// A named principal.
#[derive(Debug, PartialEq, Eq)]
pub struct SystemPrincipal(pub String);

/// Who owns the daemon's sockets.
#[derive(Debug, PartialEq, Eq)]
pub enum OwnerIdentity {
    UnixUser(UnixUserIdentifier),
    Principal(SystemPrincipal),
}

/// The configuration that Persona hands the `system` daemon at startup.
#[derive(Debug, PartialEq, Eq)]
pub struct SystemDaemonConfiguration {
    pub system_socket_path: SystemSocketPath,
    pub system_socket_mode: SystemSocketMode,
    pub supervision_socket_path: SupervisionSocketPath,
    pub supervision_socket_mode: SupervisionSocketMode,
    pub backend: Backend,
    pub owner_identity: OwnerIdentity,
}

/// The configuration's fields as plain values, before they are wrapped in their roles.
#[derive(Debug, PartialEq, Eq)]
pub struct SystemDaemonConfigurationParts {
    pub system_socket_path: WirePath,
    pub system_socket_mode: SocketMode,
    pub supervision_socket_path: WirePath,
    pub supervision_socket_mode: SocketMode,
    pub backend: SystemBackend,
    pub owner_identity: OwnerIdentity,
}

/// Why archiving or restoring a configuration failed.
#[derive(Clone, Copy, Debug, PartialEq, Eq, Structural)]
pub enum SystemDaemonConfigurationArchiveError {
    Encode,
    Decode,
}

impl WirePath {
    pub fn new(path: &str) -> (wire_path: Self)
        ensures
            wire_path.0@ == path@,
    {
        WirePath(path.to_owned())
    }

    pub fn payload(&self) -> (payload: &String)
        ensures
            payload@ == self.0@,
    {
        &self.0
    }

    pub fn into_payload(self) -> (payload: String)
        ensures
            payload@ == self.0@,
    {
        self.0
    }

    /// The path as text.
    pub fn as_str(&self) -> (text: &str)
        ensures
            text@ == self.0@,
    {
        self.payload().as_str()
    }

    /// The text that `Display` writes for this path: the path itself.
    pub fn display_text(&self) -> (text: String)
        ensures
            text@ == self.0@,
    {
        self.payload().clone()
    }
}

impl SocketMode {
    pub fn new(payload: u64) -> (mode: Self)
        ensures
            mode.0 == payload,
    {
        SocketMode(payload)
    }

    pub fn payload(&self) -> (payload: &u64)
        ensures
            *payload == self.0,
    {
        &self.0
    }

    pub fn into_payload(self) -> (payload: u64)
        ensures
            payload == self.0,
    {
        self.0
    }

    /// The permission bits as a `u32`, keeping the low 32 bits.
    #[verifier::allow_in_spec]
    pub fn into_u32(self) -> u32
        returns
            self.0 as u32,
    {
        self.into_payload() as u32
    }

    /// The text that `Display` writes for this mode: the bits in decimal.
    pub fn display_text(&self) -> (text: String)
        ensures
            text@ == decimal_digits(self.0 as nat),
    {
        decimal_text(*self.payload())
    }
}

impl SystemSocketPath {
    pub fn new(payload: WirePath) -> (path: Self)
        ensures
            path.0 == payload,
    {
        SystemSocketPath(payload)
    }

    /// The path as text.
    pub fn as_str(&self) -> (text: &str)
        ensures
            text@ == self.0.0@,
    {
        self.0.as_str()
    }
}

impl SupervisionSocketPath {
    pub fn new(payload: WirePath) -> (path: Self)
        ensures
            path.0 == payload,
    {
        SupervisionSocketPath(payload)
    }

    /// The path as text.
    pub fn as_str(&self) -> (text: &str)
        ensures
            text@ == self.0.0@,
    {
        self.0.as_str()
    }
}

impl SystemSocketMode {
    pub fn new(payload: SocketMode) -> (mode: Self)
        ensures
            mode.0 == payload,
    {
        SystemSocketMode(payload)
    }

    pub fn into_payload(self) -> (payload: SocketMode)
        ensures
            payload == self.0,
    {
        self.0
    }

    /// The permission bits as a `u32`.
    #[verifier::allow_in_spec]
    pub fn into_u32(self) -> u32
        returns
            self.0.into_u32(),
    {
        self.into_payload().into_u32()
    }
}

impl SupervisionSocketMode {
    pub fn new(payload: SocketMode) -> (mode: Self)
        ensures
            mode.0 == payload,
    {
        SupervisionSocketMode(payload)
    }

    pub fn into_payload(self) -> (payload: SocketMode)
        ensures
            payload == self.0,
    {
        self.0
    }

    /// The permission bits as a `u32`.
    #[verifier::allow_in_spec]
    pub fn into_u32(self) -> u32
        returns
            self.0.into_u32(),
    {
        self.into_payload().into_u32()
    }
}

impl UnixUserIdentifier {
    pub fn new(payload: u64) -> (user: Self)
        ensures
            user.0 == payload,
    {
        UnixUserIdentifier(payload)
    }

    pub fn payload(&self) -> (payload: &u64)
        ensures
            *payload == self.0,
    {
        &self.0
    }

    /// The user id as a `u32`, keeping the low 32 bits.
    #[verifier::allow_in_spec]
    pub fn as_u32(&self) -> u32
        returns
            self.0 as u32,
    {
        *self.payload() as u32
    }
}

impl SystemPrincipal {
    pub fn new(name: &str) -> (principal: Self)
        ensures
            principal.0@ == name@,
    {
        SystemPrincipal(name.to_owned())
    }

    pub fn payload(&self) -> (payload: &String)
        ensures
            payload@ == self.0@,
    {
        &self.0
    }

    /// The principal's name.
    pub fn as_str(&self) -> (text: &str)
        ensures
            text@ == self.0@,
    {
        self.payload().as_str()
    }
}

impl From<SystemDaemonConfigurationParts> for SystemDaemonConfiguration {
    fn from(parts: SystemDaemonConfigurationParts) -> (configuration: Self) {
        Self {
            system_socket_path: SystemSocketPath::new(parts.system_socket_path),
            system_socket_mode: SystemSocketMode::new(parts.system_socket_mode),
            supervision_socket_path: SupervisionSocketPath::new(parts.supervision_socket_path),
            supervision_socket_mode: SupervisionSocketMode::new(parts.supervision_socket_mode),
            backend: Backend::new(parts.backend),
            owner_identity: parts.owner_identity,
        }
    }
}

impl vstd::std_specs::convert::FromSpecImpl<SystemDaemonConfigurationParts> for SystemDaemonConfiguration {
    open spec fn obeys_from_spec() -> bool {
        true
    }

    open spec fn from_spec(parts: SystemDaemonConfigurationParts) -> Self {
        SystemDaemonConfiguration {
            system_socket_path: SystemSocketPath(parts.system_socket_path),
            system_socket_mode: SystemSocketMode(parts.system_socket_mode),
            supervision_socket_path: SupervisionSocketPath(parts.supervision_socket_path),
            supervision_socket_mode: SupervisionSocketMode(parts.supervision_socket_mode),
            backend: Backend(parts.backend),
            owner_identity: parts.owner_identity,
        }
    }
}

impl Clone for WirePath {
    fn clone(&self) -> (copy: Self)
        ensures
            copy == *self,
    {
        WirePath(self.0.clone())
    }
}

impl Clone for SystemSocketPath {
    fn clone(&self) -> (copy: Self)
        ensures
            copy == *self,
    {
        SystemSocketPath(self.0.clone())
    }
}

impl Clone for SupervisionSocketPath {
    fn clone(&self) -> (copy: Self)
        ensures
            copy == *self,
    {
        SupervisionSocketPath(self.0.clone())
    }
}

impl Clone for SystemPrincipal {
    fn clone(&self) -> (copy: Self)
        ensures
            copy == *self,
    {
        SystemPrincipal(self.0.clone())
    }
}

impl Clone for OwnerIdentity {
    fn clone(&self) -> (copy: Self)
        ensures
            copy == *self,
    {
        match self {
            OwnerIdentity::UnixUser(user) => OwnerIdentity::UnixUser(*user),
            OwnerIdentity::Principal(principal) => OwnerIdentity::Principal(principal.clone()),
        }
    }
}

impl Clone for SystemDaemonConfiguration {
    fn clone(&self) -> (copy: Self)
        ensures
            copy == *self,
    {
        SystemDaemonConfiguration {
            system_socket_path: self.system_socket_path.clone(),
            system_socket_mode: self.system_socket_mode,
            supervision_socket_path: self.supervision_socket_path.clone(),
            supervision_socket_mode: self.supervision_socket_mode,
            backend: self.backend,
            owner_identity: self.owner_identity.clone(),
        }
    }
}

impl Clone for SystemDaemonConfigurationParts {
    fn clone(&self) -> (copy: Self)
        ensures
            copy == *self,
    {
        SystemDaemonConfigurationParts {
            system_socket_path: self.system_socket_path.clone(),
            system_socket_mode: self.system_socket_mode,
            supervision_socket_path: self.supervision_socket_path.clone(),
            supervision_socket_mode: self.supervision_socket_mode,
            backend: self.backend,
            owner_identity: self.owner_identity.clone(),
        }
    }
}

impl SystemDaemonConfigurationArchiveError {
    /// The human-readable description of the failure, as its `Display` writes it.
    pub fn message(&self) -> (text: &'static str)
        ensures
            self is Encode ==> text@ == "failed to encode system daemon configuration archive"@,
            self is Decode ==> text@ == "failed to decode system daemon configuration archive"@,
    {
        match self {
            Self::Encode => "failed to encode system daemon configuration archive",
            Self::Decode => "failed to decode system daemon configuration archive",
        }
    }
}

/// Building a configuration from its parts keeps every part, each in its own role.
pub proof fn lemma_configuration_keeps_its_parts(parts: SystemDaemonConfigurationParts)
    ensures
        ({
            let configuration = SystemDaemonConfiguration::from_spec(parts);
            &&& configuration.system_socket_path.0 == parts.system_socket_path
            &&& configuration.system_socket_path.0.0@ == parts.system_socket_path.0@
            &&& configuration.supervision_socket_path.0 == parts.supervision_socket_path
            &&& configuration.supervision_socket_path.0.0@ == parts.supervision_socket_path.0@
            &&& configuration.system_socket_mode.into_u32() == parts.system_socket_mode.into_u32()
            &&& configuration.supervision_socket_mode.into_u32() == parts.supervision_socket_mode.into_u32()
            &&& configuration.backend.system_backend() == parts.backend
            &&& configuration.owner_identity == parts.owner_identity
        }),
{
}

} // verus!
