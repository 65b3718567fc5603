//! The two asymmetric establishment flows.
//!
//! Each flow is a small state machine. The embedding layer performs one
//! external step per phase — opening the connection, initializing the
//! attestation-service session, generating the role-specific secure-channel
//! configuration, running the blocking handshake, deleting the well-known
//! secure-element key — and feeds each outcome into `advance`. When a flow
//! reaches `Ready`, `complete` allocates an identifier and registers the
//! session; when it reaches `Failed`, `complete` returns the step's error
//! and is guaranteed to leave the registry and the allocator untouched, so
//! no partial registry entry can survive a failed establishment.
//!
//! The initiator acts as the attestation relying party while serving as the
//! handshake's server; the responder is the attester and the handshake's
//! client (the background-check attestation model, in which the attester is
//! the handshake client).

use vstd::prelude::*;
use crate::errors::TransportError;
use crate::registry::{IdentifierAllocator, SessionRegistry, next_counter};
use crate::session::{EncryptionMode, ResponderContext, Session, SessionId};

verus! {

/// Phase of the initiator (relying-party) establishment flow. The first
/// four phases each name the external step the embedding layer must perform
/// next; `Ready` and `Failed` are terminal.
#[derive(Clone, Copy, Debug, PartialEq, Eq)]
pub enum InitiatorPhase {
    /// Open a transport connection to the responder address.
    Connecting,
    /// Initialize a session with the remote attestation verification
    /// service (fire and forget; no response content is consumed).
    InitializingAttestation,
    /// Generate the relying-party secure-channel configuration.
    GeneratingConfig,
    /// Run the blocking handshake over the connected stream, as the
    /// handshake server.
    Handshaking,
    /// All steps succeeded; the session may be registered.
    Ready,
    /// A step failed; establishment is over with this error.
    Failed(TransportError),
}

/// Phase of the responder (attester) establishment flow, starting from an
/// already-connected stream.
#[derive(Clone, Copy, Debug, PartialEq, Eq)]
pub enum ResponderPhase {
    /// Generate the attester secure-channel configuration; this step also
    /// yields the hardware key handle and the evidence-type list.
    GeneratingConfig,
    /// Run the blocking handshake over the given stream, as the handshake
    /// client.
    Handshaking,
    /// Best effort: delete the well-known secure-element key so the next
    /// establishment through the same driver does not find it already
    /// present. Either outcome of this step leads to `Ready`.
    CleaningKey,
    /// The handshake succeeded; the session may be registered.
    Ready,
    /// Configuration generation or the handshake failed.
    Failed(TransportError),
}

/// One transition of the initiator flow: the outcome of the current phase's
/// external step decides the next phase. Terminal phases absorb.
pub open spec fn initiator_next(phase: InitiatorPhase, step_succeeded: bool) -> InitiatorPhase {
    match phase {
        InitiatorPhase::Connecting => if step_succeeded {
            InitiatorPhase::InitializingAttestation
        } else {
            InitiatorPhase::Failed(TransportError::ConnectionError)
        },
        InitiatorPhase::InitializingAttestation => if step_succeeded {
            InitiatorPhase::GeneratingConfig
        } else {
            InitiatorPhase::Failed(TransportError::AttestationInitError)
        },
        InitiatorPhase::GeneratingConfig => if step_succeeded {
            InitiatorPhase::Handshaking
        } else {
            InitiatorPhase::Failed(TransportError::ConfigGenerationError)
        },
        InitiatorPhase::Handshaking => if step_succeeded {
            InitiatorPhase::Ready
        } else {
            InitiatorPhase::Failed(TransportError::HandshakeError)
        },
        InitiatorPhase::Ready => InitiatorPhase::Ready,
        InitiatorPhase::Failed(e) => InitiatorPhase::Failed(e),
    }
}

/// One transition of the responder flow. The key-cleanup outcome is
/// deliberately ignored: both branches continue to `Ready`. Terminal phases
/// absorb.
pub open spec fn responder_next(phase: ResponderPhase, step_succeeded: bool) -> ResponderPhase {
    match phase {
        ResponderPhase::GeneratingConfig => if step_succeeded {
            ResponderPhase::Handshaking
        } else {
            ResponderPhase::Failed(TransportError::ConfigGenerationError)
        },
        ResponderPhase::Handshaking => if step_succeeded {
            ResponderPhase::CleaningKey
        } else {
            ResponderPhase::Failed(TransportError::HandshakeError)
        },
        ResponderPhase::CleaningKey => ResponderPhase::Ready,
        ResponderPhase::Ready => ResponderPhase::Ready,
        ResponderPhase::Failed(e) => ResponderPhase::Failed(e),
    }
}

/// Advance the initiator flow by the outcome of the current phase's step.
pub fn initiator_advance(phase: InitiatorPhase, step_succeeded: bool) -> (next: InitiatorPhase)
    ensures
        next == initiator_next(phase, step_succeeded),
{
    match phase {
        InitiatorPhase::Connecting => if step_succeeded {
            InitiatorPhase::InitializingAttestation
        } else {
            InitiatorPhase::Failed(TransportError::ConnectionError)
        },
        InitiatorPhase::InitializingAttestation => if step_succeeded {
            InitiatorPhase::GeneratingConfig
        } else {
            InitiatorPhase::Failed(TransportError::AttestationInitError)
        },
        InitiatorPhase::GeneratingConfig => if step_succeeded {
            InitiatorPhase::Handshaking
        } else {
            InitiatorPhase::Failed(TransportError::ConfigGenerationError)
        },
        InitiatorPhase::Handshaking => if step_succeeded {
            InitiatorPhase::Ready
        } else {
            InitiatorPhase::Failed(TransportError::HandshakeError)
        },
        InitiatorPhase::Ready => InitiatorPhase::Ready,
        InitiatorPhase::Failed(e) => InitiatorPhase::Failed(e),
    }
}

/// Advance the responder flow by the outcome of the current phase's step.
pub fn responder_advance(phase: ResponderPhase, step_succeeded: bool) -> (next: ResponderPhase)
    ensures
        next == responder_next(phase, step_succeeded),
{
    match phase {
        ResponderPhase::GeneratingConfig => if step_succeeded {
            ResponderPhase::Handshaking
        } else {
            ResponderPhase::Failed(TransportError::ConfigGenerationError)
        },
        ResponderPhase::Handshaking => if step_succeeded {
            ResponderPhase::CleaningKey
        } else {
            ResponderPhase::Failed(TransportError::HandshakeError)
        },
        ResponderPhase::CleaningKey => ResponderPhase::Ready,
        ResponderPhase::Ready => ResponderPhase::Ready,
        ResponderPhase::Failed(e) => ResponderPhase::Failed(e),
    }
}

/// Allocate an identifier and register a freshly established session in the
/// default (`Tls`) mode. Returns the identifier; a colliding identifier —
/// possible only after counter wraparound — overwrites the stale entry, the
/// documented collision policy.
pub fn register_session<C>(
    registry: &mut SessionRegistry<C>,
    allocator: &mut IdentifierAllocator,
    channel: C,
    responder_context: Option<ResponderContext>,
) -> (id: SessionId)
    ensures
        id == old(allocator).counter,
        final(allocator).counter == next_counter(old(allocator).counter),
        final(registry)@ == old(registry)@.insert(
            id,
            Session { channel, encryption_mode: EncryptionMode::Tls, responder_context },
        ),
{
    let id = allocator.next();
    let session = Session::started(channel, responder_context);
    registry.insert(id, session);
    id
}

/// Finish an initiator establishment that has reached a terminal phase.
///
/// On `Ready` the connected channel is registered and its new identifier
/// returned; on `Failed` the step's error is returned and neither the
/// registry nor the allocator changes — a failed establishment leaves no
/// partial registry entry.
pub fn initiator_complete<C>(
    registry: &mut SessionRegistry<C>,
    allocator: &mut IdentifierAllocator,
    phase: InitiatorPhase,
    channel: Option<C>,
) -> (r: Result<SessionId, TransportError>)
    requires
        phase is Ready || phase is Failed,
        phase is Ready <==> channel is Some,
    ensures
        phase is Ready ==> {
            &&& r == Ok::<SessionId, TransportError>(old(allocator).counter)
            &&& final(allocator).counter == next_counter(old(allocator).counter)
            &&& final(registry)@ == old(registry)@.insert(
                old(allocator).counter,
                (Session {
                    channel: channel->Some_0,
                    encryption_mode: EncryptionMode::Tls,
                    responder_context: None,
                }),
            )
        },
        phase is Failed ==> {
            &&& r == Err::<SessionId, TransportError>(phase->Failed_0)
            &&& final(registry)@ == old(registry)@
            &&& final(allocator).counter == old(allocator).counter
        },
{
    match phase {
        InitiatorPhase::Ready => {
            let c = match channel {
                Some(c) => c,
                None => unreached(),
            };
            Ok(register_session(registry, allocator, c, None))
        },
        InitiatorPhase::Failed(e) => Err(e),
        _ => unreached(),
    }
}

/// Finish a responder establishment that has reached a terminal phase.
///
/// On `Ready` the channel is registered together with the responder context
/// (key handle and evidence-type list) that configuration generation
/// yielded; on `Failed` the error is returned and neither the registry nor
/// the allocator changes.
pub fn responder_complete<C>(
    registry: &mut SessionRegistry<C>,
    allocator: &mut IdentifierAllocator,
    phase: ResponderPhase,
    channel: Option<C>,
    context: Option<ResponderContext>,
) -> (r: Result<SessionId, TransportError>)
    requires
        phase is Ready || phase is Failed,
        phase is Ready <==> channel is Some,
        phase is Ready ==> context is Some,
    ensures
        phase is Ready ==> {
            &&& r == Ok::<SessionId, TransportError>(old(allocator).counter)
            &&& final(allocator).counter == next_counter(old(allocator).counter)
            &&& final(registry)@ == old(registry)@.insert(
                old(allocator).counter,
                (Session {
                    channel: channel->Some_0,
                    encryption_mode: EncryptionMode::Tls,
                    responder_context: context,
                }),
            )
        },
        phase is Failed ==> {
            &&& r == Err::<SessionId, TransportError>(phase->Failed_0)
            &&& final(registry)@ == old(registry)@
            &&& final(allocator).counter == old(allocator).counter
        },
{
    match phase {
        ResponderPhase::Ready => {
            let c = match channel {
                Some(c) => c,
                None => unreached(),
            };
            Ok(register_session(registry, allocator, c, context))
        },
        ResponderPhase::Failed(e) => Err(e),
        _ => unreached(),
    }
}

} // verus!
