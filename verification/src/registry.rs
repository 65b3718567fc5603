//! The process-wide session registry and the session-identifier allocator.
//!
//! The registry is an explicitly owned table from identifiers to live
//! sessions. The embedding layer is expected to hold it (together with the
//! allocator) behind one coarse lock and keep that lock for the whole of any
//! operation, including the I/O a message exchange performs; operations on
//! the same identifier are thereby totally ordered.

use vstd::prelude::*;
use std::collections::HashMap;
use crate::errors::TransportError;
use crate::session::{ChannelSelector, EncryptionMode, Session, SessionId, selector_of, with_mode};

verus! {

broadcast use vstd::std_specs::hash::group_hash_axioms;

/// The next identifier after `c`: the 32-bit counter wraps silently after
/// exhaustion.
pub open spec fn next_counter(c: u32) -> u32 {
    if c == u32::MAX {
        0
    } else {
        (c + 1) as u32
    }
}

/// Monotonically increasing source of session identifiers, starting at 0.
///
/// Identifier allocation does not coordinate with registry insertion: an id
/// can exist that is not yet queryable, but nobody can have learned it
/// before the originating flow completes the insertion. The embedding layer
/// serializes calls by holding the allocator exclusively.
pub struct IdentifierAllocator {
    /// The identifier the next allocation will return.
    pub counter: u32,
}

impl IdentifierAllocator {
    /// A fresh allocator; the first identifier handed out is 0.
    pub fn new() -> (a: IdentifierAllocator)
        ensures
            a.counter == 0,
    {
        IdentifierAllocator { counter: 0 }
    }

    /// An allocator that will hand out `start` next; lets an embedding
    /// layer resume a counter or exercise the wraparound boundary.
    pub fn with_start(start: u32) -> (a: IdentifierAllocator)
        ensures
            a.counter == start,
    {
        IdentifierAllocator { counter: start }
    }

    /// Allocate the next identifier. Strictly increasing until the 32-bit
    /// space is exhausted, after which the counter wraps to 0.
    pub fn next(&mut self) -> (id: SessionId)
        ensures
            id == old(self).counter,
            final(self).counter == next_counter(old(self).counter),
    {
        let id = self.counter;
        self.counter = if self.counter == u32::MAX {
            0
        } else {
            self.counter + 1
        };
        id
    }
}

/// The table of live sessions, keyed by identifier.
///
/// An identifier present in the table always refers to a session whose
/// handshake completed: insertion only happens at the end of a successful
/// establishment flow. An absent identifier was either never allocated or
/// is in flight (allocated, not yet inserted) or was explicitly disposed of
/// through `remove`, the one removal path: no expiry reaps sessions, and a
/// session that is never removed lives for the rest of the process.
pub struct SessionRegistry<C> {
    table: HashMap<u32, Session<C>>,
}

impl<C> View for SessionRegistry<C> {
    type V = Map<u32, Session<C>>;

    closed spec fn view(&self) -> Map<u32, Session<C>> {
        self.table@
    }
}

impl<C> SessionRegistry<C> {
    /// An empty registry.
    pub fn new() -> (r: SessionRegistry<C>)
        ensures
            r@ == Map::<u32, Session<C>>::empty(),
    {
        SessionRegistry { table: HashMap::new() }
    }

    /// How many sessions are registered.
    pub fn len(&self) -> (n: usize)
        ensures
            n == self@.len(),
    {
        self.table.len()
    }

    /// Whether `id` is registered.
    pub fn contains(&self, id: SessionId) -> (b: bool)
        ensures
            b == self@.contains_key(id),
    {
        self.table.contains_key(&id)
    }

    /// Register a session under `id`. Always succeeds; an identifier that is
    /// somehow already present is overwritten — the documented policy for a
    /// collision after counter wraparound.
    pub fn insert(&mut self, id: SessionId, session: Session<C>)
        ensures
            final(self)@ == old(self)@.insert(id, session),
    {
        self.table.insert(id, session);
    }

    /// Overwrite the encryption mode of session `id`. No validation of
    /// whether switching mid-stream is safe: that is the caller's
    /// responsibility. Fails exactly when `id` is unknown, leaving the
    /// registry unchanged.
    pub fn set_encryption_mode(&mut self, id: SessionId, mode: EncryptionMode) -> (r: Result<
        (),
        TransportError,
    >)
        ensures
            old(self)@.contains_key(id) ==> r == Ok::<(), TransportError>(()) && final(self)@
                == old(self)@.insert(id, with_mode(old(self)@[id], mode)),
            !old(self)@.contains_key(id) ==> r == Err::<(), TransportError>(
                TransportError::SessionNotFound,
            ) && final(self)@ == old(self)@,
    {
        match self.table.remove(&id) {
            Some(mut session) => {
                session.encryption_mode = mode;
                self.table.insert(id, session);
                proof {
                    assert(self@ =~= old(self)@.insert(id, with_mode(old(self)@[id], mode)));
                }
                Ok(())
            },
            None => {
                proof {
                    assert(self@ =~= old(self)@);
                }
                Err(TransportError::SessionNotFound)
            },
        }
    }

    /// The dispatch decision for a message exchange on session `id`,
    /// evaluated against the mode the session has at call time. Fails
    /// exactly when `id` is unknown.
    pub fn message_route(&self, id: SessionId) -> (r: Result<ChannelSelector, TransportError>)
        ensures
            self@.contains_key(id) ==> r == Ok::<ChannelSelector, TransportError>(
                selector_of(self@[id].encryption_mode),
            ),
            !self@.contains_key(id) ==> r == Err::<ChannelSelector, TransportError>(
                TransportError::SessionNotFound,
            ),
    {
        match self.table.get(&id) {
            Some(session) => Ok(session.message_route()),
            None => Err(TransportError::SessionNotFound),
        }
    }

    /// Explicit session disposal: take session `id` out of the registry for
    /// good. The caller receives the session, so the owned channel — and,
    /// on a responder session, the key handle whose release is tied to
    /// disposal — can be released deterministically rather than leak for
    /// the rest of the process. Fails exactly when `id` is unknown, and
    /// touches no other entry.
    pub fn remove(&mut self, id: SessionId) -> (r: Result<Session<C>, TransportError>)
        ensures
            old(self)@.contains_key(id) ==> r == Ok::<Session<C>, TransportError>(old(self)@[id])
                && final(self)@ == old(self)@.remove(id),
            !old(self)@.contains_key(id) ==> r == Err::<Session<C>, TransportError>(
                TransportError::SessionNotFound,
            ) && final(self)@ == old(self)@,
    {
        match self.table.remove(&id) {
            Some(session) => Ok(session),
            None => {
                proof {
                    assert(self@ =~= old(self)@);
                }
                Err(TransportError::SessionNotFound)
            },
        }
    }

    /// Take exclusive hold of session `id` for the duration of one message
    /// exchange, so the embedding layer's codec can perform I/O on the
    /// owned channel outside verified code. The session leaves the table
    /// until `end_exchange` restores it; the embedding layer must pair the
    /// two under one hold of the registry lock. Fails exactly when `id` is
    /// unknown.
    pub fn begin_exchange(&mut self, id: SessionId) -> (r: Result<Session<C>, TransportError>)
        ensures
            old(self)@.contains_key(id) ==> r == Ok::<Session<C>, TransportError>(old(self)@[id])
                && final(self)@ == old(self)@.remove(id),
            !old(self)@.contains_key(id) ==> r == Err::<Session<C>, TransportError>(
                TransportError::SessionNotFound,
            ) && final(self)@ == old(self)@,
    {
        self.remove(id)
    }

    /// Restore the session taken by `begin_exchange` under its identifier.
    pub fn end_exchange(&mut self, id: SessionId, session: Session<C>)
        ensures
            final(self)@ == old(self)@.insert(id, session),
    {
        self.table.insert(id, session);
    }
}

} // verus!
