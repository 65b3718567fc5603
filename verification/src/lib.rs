//! Session-lifecycle core for attested secure channels between an initiator
//! and a responder: identifier allocation, the process-wide session registry,
//! the two role-specific establishment flows, the per-session encryption-mode
//! switch, and the mode-dispatching message transport.
//!
//! Network I/O, the cryptographic handshake, the remote attestation protocol,
//! the secure-element keystore, and the byte-framing codecs are external
//! collaborators: the embedding layer performs them and feeds their outcomes
//! into the verified flow logic here.

pub mod errors;
pub mod establish;
pub mod laws;
pub mod registry;
pub mod session;

pub use errors::TransportError;
pub use establish::{InitiatorPhase, ResponderPhase};
pub use registry::{IdentifierAllocator, SessionRegistry};
pub use session::{ChannelSelector, EncryptionMode, ResponderContext, Session, SessionId};
