//! The general guarantees of the session-lifecycle core, stated and proved
//! once, over the same models the operation contracts use.

use vstd::prelude::*;
use crate::errors::TransportError;
use crate::establish::{InitiatorPhase, ResponderPhase, initiator_next, responder_next};
use crate::registry::next_counter;
use crate::session::{EncryptionMode, Session, selector_of, with_mode};

verus! {

/// Identifier allocation never hands out the same identifier twice in a
/// row: the successor of a counter value differs from it, wraparound
/// included.
pub proof fn lemma_successive_identifiers_distinct(c: u32)
    ensures
        next_counter(c) != c,
{
}

/// Until the 32-bit space is exhausted, successively allocated identifiers
/// are strictly increasing. (At `c == u32::MAX` the counter wraps to 0
/// instead, the one excluded input.)
pub proof fn lemma_successive_identifiers_increase(c: u32)
    requires
        c < u32::MAX,
    ensures
        c < next_counter(c),
{
}

/// After counter wraparound the next identifier is 0 again; registering
/// under a colliding identifier overwrites the stale entry — the documented
/// collision policy — and touches no other entry.
pub proof fn lemma_wraparound_collision_overwrites<C>(
    m: Map<u32, Session<C>>,
    id: u32,
    s: Session<C>,
)
    ensures
        next_counter(u32::MAX) == 0,
        m.insert(id, s)[id] == s,
        m.insert(id, s).dom() =~= m.dom().insert(id),
{
}

/// A mode switch is observed by every later dispatch: in the registry state
/// a successful `set_encryption_mode` leaves behind, the session's message
/// route is exactly the selector of the new mode, whatever it was before.
pub proof fn lemma_mode_switch_observed<C>(
    m: Map<u32, Session<C>>,
    id: u32,
    mode: EncryptionMode,
)
    requires
        m.contains_key(id),
    ensures
        m.insert(id, with_mode(m[id], mode)).contains_key(id),
        m.insert(id, with_mode(m[id], mode))[id].encryption_mode == mode,
        selector_of(m.insert(id, with_mode(m[id], mode))[id].encryption_mode) == selector_of(mode),
{
}

/// Operations on one session leave every other registered session exactly
/// as it was: updating or restoring entry `id` neither changes nor removes
/// an entry under a different identifier, and taking entry `id` out leaves
/// the others in place. (Wall-clock concurrency is the embedding layer's
/// lock; this is the state-level independence it relies on.)
pub proof fn lemma_independent_sessions_unaffected<C>(
    m: Map<u32, Session<C>>,
    id: u32,
    s: Session<C>,
    other: u32,
)
    requires
        other != id,
    ensures
        m.insert(id, s).contains_key(other) <==> m.contains_key(other),
        m.contains_key(other) ==> m.insert(id, s)[other] == m[other],
        m.remove(id).contains_key(other) <==> m.contains_key(other),
        m.contains_key(other) ==> m.remove(id)[other] == m[other],
{
}

/// Terminal phases absorb: once an establishment flow has succeeded or
/// failed, no further step outcome moves it.
pub proof fn lemma_terminal_phases_absorb(
    ip: InitiatorPhase,
    rp: ResponderPhase,
    outcome: bool,
)
    ensures
        ip is Ready || ip is Failed ==> initiator_next(ip, outcome) == ip,
        rp is Ready || rp is Failed ==> responder_next(rp, outcome) == rp,
{
}

/// The complete case analysis of an initiator establishment run, for every
/// combination of step outcomes: the flow is ready to register exactly when
/// all four steps succeeded, and the first failing step decides the error —
/// connection, attestation-service initialization, configuration
/// generation, and handshake, in that order.
pub proof fn lemma_initiator_flow_outcome(o1: bool, o2: bool, o3: bool, o4: bool)
    ensures
        ({
            let p = initiator_next(
                initiator_next(
                    initiator_next(initiator_next(InitiatorPhase::Connecting, o1), o2),
                    o3,
                ),
                o4,
            );
            &&& (o1 && o2 && o3 && o4) <==> p == InitiatorPhase::Ready
            &&& !o1 ==> p == InitiatorPhase::Failed(TransportError::ConnectionError)
            &&& (o1 && !o2) ==> p == InitiatorPhase::Failed(TransportError::AttestationInitError)
            &&& (o1 && o2 && !o3) ==> p == InitiatorPhase::Failed(
                TransportError::ConfigGenerationError,
            )
            &&& (o1 && o2 && o3 && !o4) ==> p == InitiatorPhase::Failed(
                TransportError::HandshakeError,
            )
        }),
{
}

/// The complete case analysis of a responder establishment run: the flow is
/// ready to register exactly when configuration generation and the
/// handshake succeeded — the outcome of the best-effort key cleanup never
/// prevents it and never surfaces — and otherwise the first failing step
/// decides the error.
pub proof fn lemma_responder_flow_outcome(o1: bool, o2: bool, cleanup: bool)
    ensures
        ({
            let p = responder_next(
                responder_next(responder_next(ResponderPhase::GeneratingConfig, o1), o2),
                cleanup,
            );
            &&& (o1 && o2) <==> p == ResponderPhase::Ready
            &&& !o1 ==> p == ResponderPhase::Failed(TransportError::ConfigGenerationError)
            &&& (o1 && !o2) ==> p == ResponderPhase::Failed(TransportError::HandshakeError)
        }),
{
}

} // verus!
