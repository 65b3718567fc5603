//! Error taxonomy for the session-lifecycle core.

use vstd::prelude::*;

verus! {

/// One specific failure kind per fallible public operation.
///
/// Establishment reports which step failed (connection, attestation-service
/// initialization, configuration generation, or handshake); registry-backed
/// operations report an unknown identifier or a poisoned lock; the message
/// dispatcher additionally reports transport and payload-codec failures.
/// The embedding layer attaches free-form context (address, cause) when it
/// surfaces one of these to its own callers.
#[derive(Clone, Copy, Debug, PartialEq, Eq)]
pub enum TransportError {
    /// The transport connection to the responder address could not be opened.
    ConnectionError,
    /// A session with the remote attestation verification service could not
    /// be initialized.
    AttestationInitError,
    /// The role-specific secure-channel configuration could not be generated.
    ConfigGenerationError,
    /// The blocking secure-channel handshake failed.
    HandshakeError,
    /// The registry lock could not be acquired; treated as unrecoverable for
    /// the call that observes it.
    LockError,
    /// The given identifier is not present in the session registry.
    SessionNotFound,
    /// The underlying byte stream failed during a message exchange.
    IoError,
    /// A payload could not be encoded or decoded by the message codec.
    SerializationError,
}

/// The short stable name of each error kind.
pub open spec fn kind_name_spec(e: TransportError) -> Seq<char> {
    match e {
        TransportError::ConnectionError => "connection error"@,
        TransportError::AttestationInitError => "attestation init error"@,
        TransportError::ConfigGenerationError => "config generation error"@,
        TransportError::HandshakeError => "handshake error"@,
        TransportError::LockError => "lock error"@,
        TransportError::SessionNotFound => "session not found"@,
        TransportError::IoError => "i/o error"@,
        TransportError::SerializationError => "serialization error"@,
    }
}

impl TransportError {
    /// A short stable name for the error kind, for embedding layers that
    /// render diagnostics.
    pub fn kind_name(&self) -> (s: &'static str)
        ensures
            s@ == kind_name_spec(*self),
    {
        match self {
            TransportError::ConnectionError => "connection error",
            TransportError::AttestationInitError => "attestation init error",
            TransportError::ConfigGenerationError => "config generation error",
            TransportError::HandshakeError => "handshake error",
            TransportError::LockError => "lock error",
            TransportError::SessionNotFound => "session not found",
            TransportError::IoError => "i/o error",
            TransportError::SerializationError => "serialization error",
        }
    }
}

} // verus!
