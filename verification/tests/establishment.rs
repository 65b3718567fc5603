use attested_transport::errors::TransportError;
use attested_transport::establish::{
    initiator_advance, initiator_complete, responder_advance, responder_complete, InitiatorPhase,
    ResponderPhase,
};
use attested_transport::registry::{IdentifierAllocator, SessionRegistry};
use attested_transport::session::{EncryptionMode, ResponderContext};

fn drive_initiator(outcomes: &[bool]) -> InitiatorPhase {
    let mut phase = InitiatorPhase::Connecting;
    for &ok in outcomes {
        phase = initiator_advance(phase, ok);
    }
    phase
}

fn drive_responder(outcomes: &[bool]) -> ResponderPhase {
    let mut phase = ResponderPhase::GeneratingConfig;
    for &ok in outcomes {
        phase = responder_advance(phase, ok);
    }
    phase
}

#[test]
fn initiator_flow_succeeds_when_every_step_does() {
    let phase = drive_initiator(&[true, true, true, true]);
    assert_eq!(phase, InitiatorPhase::Ready);
    let mut reg: SessionRegistry<u8> = SessionRegistry::new();
    let mut alloc = IdentifierAllocator::new();
    let r = initiator_complete(&mut reg, &mut alloc, phase, Some(5u8));
    assert_eq!(r, Ok(0));
    assert!(reg.contains(0));
    assert_eq!(reg.len(), 1);
    let s = reg.begin_exchange(0).unwrap();
    assert_eq!(s.encryption_mode, EncryptionMode::Tls);
    assert_eq!(s.responder_context, None);
    reg.end_exchange(0, s);
}

#[test]
fn unreachable_responder_fails_with_connection_error_and_no_entry() {
    let phase = drive_initiator(&[false]);
    assert_eq!(phase, InitiatorPhase::Failed(TransportError::ConnectionError));
    let mut reg: SessionRegistry<u8> = SessionRegistry::new();
    let mut alloc = IdentifierAllocator::new();
    let r = initiator_complete(&mut reg, &mut alloc, phase, None);
    assert_eq!(r, Err(TransportError::ConnectionError));
    assert_eq!(reg.len(), 0);
    assert_eq!(alloc.next(), 0);
}

#[test]
fn failed_attestation_init_reports_its_own_error() {
    let phase = drive_initiator(&[true, false]);
    assert_eq!(phase, InitiatorPhase::Failed(TransportError::AttestationInitError));
    let mut reg: SessionRegistry<u8> = SessionRegistry::new();
    let mut alloc = IdentifierAllocator::new();
    let r = initiator_complete(&mut reg, &mut alloc, phase, None);
    assert_eq!(r, Err(TransportError::AttestationInitError));
    assert_eq!(reg.len(), 0);
}

#[test]
fn failed_config_generation_reports_its_own_error() {
    let phase = drive_initiator(&[true, true, false]);
    assert_eq!(phase, InitiatorPhase::Failed(TransportError::ConfigGenerationError));
}

#[test]
fn aborted_handshake_fails_with_handshake_error_and_no_entry() {
    let phase = drive_initiator(&[true, true, true, false]);
    assert_eq!(phase, InitiatorPhase::Failed(TransportError::HandshakeError));
    let mut reg: SessionRegistry<u8> = SessionRegistry::new();
    let mut alloc = IdentifierAllocator::new();
    let r = initiator_complete(&mut reg, &mut alloc, phase, None);
    assert_eq!(r, Err(TransportError::HandshakeError));
    assert_eq!(reg.len(), 0);
}

#[test]
fn terminal_phases_absorb_later_outcomes() {
    let failed = drive_initiator(&[false, true, true, true]);
    assert_eq!(failed, InitiatorPhase::Failed(TransportError::ConnectionError));
    let ready = drive_initiator(&[true, true, true, true, true, false]);
    assert_eq!(ready, InitiatorPhase::Ready);
}

#[test]
fn responder_flow_registers_context_on_success() {
    let phase = drive_responder(&[true, true, true]);
    assert_eq!(phase, ResponderPhase::Ready);
    let context = ResponderContext {
        key_handle: 48879,
        client_attestation_type_list: [1, 2, 3],
    };
    let mut reg: SessionRegistry<u8> = SessionRegistry::new();
    let mut alloc = IdentifierAllocator::new();
    let r = responder_complete(&mut reg, &mut alloc, phase, Some(6u8), Some(context));
    assert_eq!(r, Ok(0));
    let s = reg.begin_exchange(0).unwrap();
    assert_eq!(s.responder_context, Some(context));
    assert_eq!(s.encryption_mode, EncryptionMode::Tls);
    reg.end_exchange(0, s);
}

#[test]
fn failed_key_cleanup_does_not_prevent_establishment() {
    let phase = drive_responder(&[true, true, false]);
    assert_eq!(phase, ResponderPhase::Ready);
    let context = ResponderContext {
        key_handle: 48879,
        client_attestation_type_list: [7, 8, 9],
    };
    let mut reg: SessionRegistry<u8> = SessionRegistry::new();
    let mut alloc = IdentifierAllocator::new();
    let r = responder_complete(&mut reg, &mut alloc, phase, Some(6u8), Some(context));
    assert_eq!(r, Ok(0));
    assert!(reg.contains(0));
}

#[test]
fn responder_config_failure_reports_its_own_error() {
    let phase = drive_responder(&[false]);
    assert_eq!(phase, ResponderPhase::Failed(TransportError::ConfigGenerationError));
    let mut reg: SessionRegistry<u8> = SessionRegistry::new();
    let mut alloc = IdentifierAllocator::new();
    let r = responder_complete(&mut reg, &mut alloc, phase, None, None);
    assert_eq!(r, Err(TransportError::ConfigGenerationError));
    assert_eq!(reg.len(), 0);
}

#[test]
fn responder_handshake_failure_reports_its_own_error() {
    let phase = drive_responder(&[true, false]);
    assert_eq!(phase, ResponderPhase::Failed(TransportError::HandshakeError));
    let mut reg: SessionRegistry<u8> = SessionRegistry::new();
    let mut alloc = IdentifierAllocator::new();
    let r = responder_complete(&mut reg, &mut alloc, phase, None, None);
    assert_eq!(r, Err(TransportError::HandshakeError));
    assert_eq!(reg.len(), 0);
}

#[test]
fn cleanup_key_name_is_the_well_known_one() {
    assert_eq!(
        attested_transport::session::se_cleanup_key_name(),
        "parsec-se-driver-key48879"
    );
}
