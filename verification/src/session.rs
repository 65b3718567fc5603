//! Session state: encryption mode, responder-side context, and the session
//! record that owns a secure-channel handle.

use vstd::prelude::*;

verus! {

/// Identifier of a registered session. Allocated by `IdentifierAllocator`;
/// wraps silently after exhaustion of the 32-bit space.
pub type SessionId = u32;

/// How application messages on a session are carried.
///
/// Local connections may be switched to `Plaintext` for performance; remote
/// connections should stay on `Tls`. Every session starts in `Tls`.
#[derive(Clone, Copy, Debug, PartialEq, Eq)]
pub enum EncryptionMode {
    Tls,
    Plaintext,
}

impl Default for EncryptionMode {
    /// Sessions default to the encrypted mode.
    fn default() -> (m: EncryptionMode)
        ensures
            m == EncryptionMode::Tls,
    {
        EncryptionMode::Tls
    }
}

/// Which external codec a message exchange must be dispatched to.
#[derive(Clone, Copy, Debug, PartialEq, Eq)]
pub enum ChannelSelector {
    /// Frame and carry the payload over the established secure channel.
    SecureChannel,
    /// Frame and carry the payload over the raw underlying byte stream.
    RawStream,
}

/// Responder-side data that must live for the whole session: the opaque
/// handle of the hardware-backed key used during establishment, and the
/// fixed list of attestation-evidence types this responder can produce.
#[derive(Clone, Copy, Debug, PartialEq, Eq)]
pub struct ResponderContext {
    /// Opaque secure-element key handle, carried as its numeric value.
    pub key_handle: u32,
    /// The three attestation-evidence type identifiers offered during the
    /// handshake.
    pub client_attestation_type_list: [u16; 3],
}

/// A registered session. It owns exactly one secure-channel handle `C`,
/// bound to exactly one underlying stream; the handle is opaque here, and
/// the embedding layer performs all I/O on it.
pub struct Session<C> {
    /// The secure-channel context, held for the embedding layer's codecs.
    pub channel: C,
    /// Current transport mode; mutable after creation, initially `Tls`.
    pub encryption_mode: EncryptionMode,
    /// Present exactly on responder-created sessions.
    pub responder_context: Option<ResponderContext>,
}

/// The dispatch rule: which codec carries messages for a given mode.
pub open spec fn selector_of(mode: EncryptionMode) -> ChannelSelector {
    match mode {
        EncryptionMode::Tls => ChannelSelector::SecureChannel,
        EncryptionMode::Plaintext => ChannelSelector::RawStream,
    }
}

/// The same session with its encryption mode replaced.
pub open spec fn with_mode<C>(s: Session<C>, mode: EncryptionMode) -> Session<C> {
    Session { channel: s.channel, encryption_mode: mode, responder_context: s.responder_context }
}

impl<C> Session<C> {
    /// A fresh session in the default mode, as registered by an
    /// establishment flow.
    pub fn started(channel: C, responder_context: Option<ResponderContext>) -> (s: Session<C>)
        ensures
            s == (Session {
                channel,
                encryption_mode: EncryptionMode::Tls,
                responder_context,
            }),
    {
        Session { channel, encryption_mode: EncryptionMode::Tls, responder_context }
    }

    /// The codec this session's messages must be dispatched to, per the
    /// current encryption mode.
    pub fn message_route(&self) -> (r: ChannelSelector)
        ensures
            r == selector_of(self.encryption_mode),
    {
        match self.encryption_mode {
            EncryptionMode::Tls => ChannelSelector::SecureChannel,
            EncryptionMode::Plaintext => ChannelSelector::RawStream,
        }
    }
}

/// The name of the well-known secure-element key deleted, best effort, by
/// the responder flow after a successful handshake, so that the next
/// establishment through the same secure-element driver does not fail with
/// an already-exists error.
pub fn se_cleanup_key_name() -> (s: &'static str)
    ensures
        s@ == "parsec-se-driver-key48879"@,
{
    "parsec-se-driver-key48879"
}

} // verus!
