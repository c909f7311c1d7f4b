use communication::error::{CommunicationError, HandshakeErrorType};
use communication::handshake::{Action, Event, HandshakeWorker, Phase, RoundOutcome};
use communication::identity::{same_bytes, NodeId, PublicKey, Signature};
use communication::message::Message;
use communication::utime::UTime;

fn node_id(seed: u8) -> NodeId {
    NodeId(PublicKey::from_bytes(vec![seed; 33]))
}

// A stand-in for the signing capability: the "signature" of a challenge is the
// signer's key followed by the challenge, so only the matching key verifies it.
fn toy_sign(key: &NodeId, random_bytes: &[u8; 32]) -> Signature {
    let mut bytes = key.0.as_bytes().clone();
    bytes.extend_from_slice(random_bytes);
    Signature::from_bytes(bytes)
}

fn toy_verify(random_bytes: &[u8; 32], signature: &Signature, public_key: &PublicKey) -> bool {
    let mut expected = public_key.as_bytes().clone();
    expected.extend_from_slice(random_bytes);
    signature.as_bytes() == &expected
}

fn sent_message(action: &Action) -> Message {
    match action {
        Action::Exchange { message, .. } => match message {
            Message::HandshakeInitiation { public_key, random_bytes } => {
                Message::HandshakeInitiation { public_key: public_key.clone(), random_bytes: *random_bytes }
            }
            Message::HandshakeReply { signature } => Message::HandshakeReply { signature: signature.clone() },
        },
        _ => panic!("expected a round"),
    }
}

fn received(message: Message) -> Event {
    Event::Exchanged(RoundOutcome::Received(message))
}

fn finished_error(action: Action) -> CommunicationError {
    match action {
        Action::Finish(Err(e)) => e,
        _ => panic!("expected a failed handshake"),
    }
}

fn handshake_error(action: Action) -> HandshakeErrorType {
    match finished_error(action) {
        CommunicationError::HandshakeError(kind) => kind,
        e => panic!("expected a handshake error, got {:?}", e),
    }
}

fn start(seed: u8, random: u8) -> (HandshakeWorker, Action) {
    let mut w = HandshakeWorker::with_random_bytes(node_id(seed), UTime(5000), [random; 32]);
    let a = w.step(Event::Start);
    (w, a)
}

#[test]
fn two_nodes_authenticate_each_other() {
    let ka = node_id(1);
    let kb = node_id(2);
    let mut a = HandshakeWorker::new(node_id(1), UTime(5000)).unwrap();
    let mut b = HandshakeWorker::new(node_id(2), UTime(5000)).unwrap();
    let a1 = a.step(Event::Start);
    let b1 = b.step(Event::Start);
    assert!(matches!(a1, Action::Exchange { timeout: UTime(5000), .. }));
    let a2 = a.step(received(sent_message(&b1)));
    let b2 = b.step(received(sent_message(&a1)));
    let a_sig = match &a2 {
        Action::Sign { random_bytes } => {
            assert_eq!(*random_bytes, b.self_random_bytes());
            toy_sign(&ka, random_bytes)
        }
        _ => panic!("A should sign B's challenge"),
    };
    let b_sig = match &b2 {
        Action::Sign { random_bytes } => {
            assert_eq!(*random_bytes, a.self_random_bytes());
            toy_sign(&kb, random_bytes)
        }
        _ => panic!("B should sign A's challenge"),
    };
    let a3 = a.step(Event::Signed(Ok(a_sig)));
    let b3 = b.step(Event::Signed(Ok(b_sig)));
    let a4 = a.step(received(sent_message(&b3)));
    let b4 = b.step(received(sent_message(&a3)));
    let a_ok = match &a4 {
        Action::Verify { random_bytes, signature, public_key } => {
            assert_eq!(*random_bytes, a.self_random_bytes());
            toy_verify(random_bytes, signature, public_key)
        }
        _ => panic!("A should verify"),
    };
    let b_ok = match &b4 {
        Action::Verify { random_bytes, signature, public_key } => toy_verify(random_bytes, signature, public_key),
        _ => panic!("B should verify"),
    };
    assert!(a_ok && b_ok);
    match a.step(Event::Verified(Ok(a_ok))) {
        Action::Finish(Ok(peer)) => assert!(peer == kb),
        _ => panic!("A should authenticate B"),
    }
    match b.step(Event::Verified(Ok(b_ok))) {
        Action::Finish(Ok(peer)) => assert!(peer == ka),
        _ => panic!("B should authenticate A"),
    }
    assert!(a.is_finished() && b.is_finished());
    assert!(matches!(a.phase(), Phase::Authenticated(_)));
}

#[test]
fn silent_peer_times_out_in_round_one() {
    let (mut w, a1) = start(1, 9);
    match a1 {
        Action::Exchange { timeout, .. } => assert_eq!(timeout.to_millis(), 5000),
        _ => panic!("expected round one"),
    }
    let r = w.step(Event::Exchanged(RoundOutcome::TimedOut));
    assert_eq!(handshake_error(r), HandshakeErrorType::HandshakeTimeoutError);
    assert!(w.is_finished());
    assert!(!w.accepts(&Event::Exchanged(RoundOutcome::TimedOut)));
}

#[test]
fn reply_in_round_one_is_a_wrong_message() {
    let (mut w, _) = start(1, 9);
    let r = w.step(received(Message::HandshakeReply { signature: Signature::from_bytes(vec![0; 64]) }));
    assert_eq!(handshake_error(r), HandshakeErrorType::HandshakeWrongMessageError);
    assert!(matches!(w.phase(), Phase::Failed));
}

#[test]
fn dialing_itself_fails_with_key_error_before_signing() {
    let (mut w, a1) = start(1, 9);
    let r = w.step(received(sent_message(&a1)));
    assert!(!matches!(r, Action::Sign { .. }));
    assert_eq!(handshake_error(r), HandshakeErrorType::HandshakeKeyError);
    assert!(!w.accepts(&Event::Signed(Ok(Signature::from_bytes(vec![1])))));
}

#[test]
fn same_identity_on_both_ends_fails_with_key_error() {
    let (mut a, _) = start(1, 9);
    let (_, b1) = start(1, 4);
    let r = a.step(received(sent_message(&b1)));
    assert_eq!(handshake_error(r), HandshakeErrorType::HandshakeKeyError);
}

#[test]
fn corrupted_signature_is_invalid() {
    let ka = node_id(1);
    let kb = node_id(2);
    let (mut a, _) = start(1, 9);
    let (_, b1) = start(2, 4);
    let a2 = a.step(received(sent_message(&b1)));
    let a_sig = match &a2 {
        Action::Sign { random_bytes } => toy_sign(&ka, random_bytes),
        _ => panic!("expected signing"),
    };
    a.step(Event::Signed(Ok(a_sig)));
    let mut forged = toy_sign(&kb, &a.self_random_bytes()).as_bytes().clone();
    forged[40] ^= 0x01;
    let a4 = a.step(received(Message::HandshakeReply { signature: Signature::from_bytes(forged.clone()) }));
    let verdict = match &a4 {
        Action::Verify { random_bytes, signature, public_key } => {
            assert_eq!(signature.as_bytes(), &forged);
            assert!(public_key.as_bytes() == kb.0.as_bytes());
            toy_verify(random_bytes, signature, public_key)
        }
        _ => panic!("expected verification"),
    };
    assert!(!verdict);
    let r = a.step(Event::Verified(Ok(verdict)));
    assert_eq!(handshake_error(r), HandshakeErrorType::HandshakeInvalidSignatureError);
}

#[test]
fn attempts_draw_fresh_challenges() {
    let a = HandshakeWorker::new(node_id(1), UTime(5000)).unwrap();
    let b = HandshakeWorker::new(node_id(1), UTime(5000)).unwrap();
    assert_ne!(a.self_random_bytes(), b.self_random_bytes());
}

#[test]
fn initiation_carries_identity_and_challenge() {
    let (_, a1) = start(3, 7);
    match a1 {
        Action::Exchange { message: Message::HandshakeInitiation { public_key, random_bytes }, timeout } => {
            assert_eq!(public_key.as_bytes(), &vec![3u8; 33]);
            assert_eq!(random_bytes, [7u8; 32]);
            assert_eq!(timeout, UTime::from_millis(5000));
        }
        _ => panic!("expected the initiation"),
    }
}

#[test]
fn ended_stream_is_an_interruption() {
    let (mut w, _) = start(1, 9);
    let r = w.step(Event::Exchanged(RoundOutcome::Ended));
    assert_eq!(handshake_error(r), HandshakeErrorType::HandshakeInterruptionError);
}

#[test]
fn transport_failure_is_passed_on() {
    let (mut w, _) = start(1, 9);
    let r = w.step(Event::Exchanged(RoundOutcome::Failed(CommunicationError::TransportError("reset".to_string()))));
    match finished_error(r) {
        CommunicationError::TransportError(d) => assert_eq!(d, "reset"),
        e => panic!("unexpected {:?}", e),
    }
}

fn at_round_two() -> HandshakeWorker {
    let (mut w, _) = start(1, 9);
    let (_, b1) = start(2, 4);
    w.step(received(sent_message(&b1)));
    w.step(Event::Signed(Ok(Signature::from_bytes(vec![5; 64]))));
    w
}

#[test]
fn signer_failure_is_a_crypto_error() {
    let (mut w, _) = start(1, 9);
    let (_, b1) = start(2, 4);
    w.step(received(sent_message(&b1)));
    assert!(matches!(w.phase(), Phase::Signing(_)));
    let r = w.step(Event::Signed(Err("no key".to_string())));
    assert!(matches!(finished_error(r), CommunicationError::CryptoError(d) if d == "no key"));
}

#[test]
fn round_two_sends_the_signature_under_the_deadline() {
    let (mut w, _) = start(1, 9);
    let (_, b1) = start(2, 4);
    w.step(received(sent_message(&b1)));
    let a3 = w.step(Event::Signed(Ok(Signature::from_bytes(vec![5; 64]))));
    match a3 {
        Action::Exchange { message: Message::HandshakeReply { signature }, timeout } => {
            assert_eq!(signature.as_bytes(), &vec![5u8; 64]);
            assert_eq!(timeout, UTime(5000));
        }
        _ => panic!("expected round two"),
    }
}

#[test]
fn initiation_in_round_two_is_a_wrong_message() {
    let mut w = at_round_two();
    let (_, b1) = start(2, 4);
    let r = w.step(received(sent_message(&b1)));
    assert_eq!(handshake_error(r), HandshakeErrorType::HandshakeWrongMessageError);
}

#[test]
fn silent_peer_times_out_in_round_two() {
    let mut w = at_round_two();
    let r = w.step(Event::Exchanged(RoundOutcome::TimedOut));
    assert_eq!(handshake_error(r), HandshakeErrorType::HandshakeTimeoutError);
}

#[test]
fn verifier_failure_is_a_crypto_error() {
    let mut w = at_round_two();
    w.step(received(Message::HandshakeReply { signature: Signature::from_bytes(vec![6; 64]) }));
    let r = w.step(Event::Verified(Err("bad key".to_string())));
    assert!(matches!(finished_error(r), CommunicationError::CryptoError(d) if d == "bad key"));
    assert!(w.is_finished());
}

#[test]
fn worker_waits_only_for_its_next_event() {
    let w = HandshakeWorker::with_random_bytes(node_id(1), UTime(10), [0; 32]);
    assert!(w.accepts(&Event::Start));
    assert!(!w.accepts(&Event::Exchanged(RoundOutcome::Ended)));
    assert!(!w.accepts(&Event::Verified(Ok(true))));
    assert!(!w.is_finished());
    assert_eq!(w.timeout_duration(), UTime(10));
    assert!(*w.self_node_id() == node_id(1));
}

#[test]
fn transient_failures_are_told_apart() {
    assert!(CommunicationError::HandshakeError(HandshakeErrorType::HandshakeTimeoutError).is_transient());
    assert!(CommunicationError::HandshakeError(HandshakeErrorType::HandshakeInterruptionError).is_transient());
    assert!(!CommunicationError::HandshakeError(HandshakeErrorType::HandshakeKeyError).is_transient());
    assert!(!CommunicationError::TransportError("x".to_string()).is_transient());
}

#[test]
fn byte_comparison() {
    assert!(same_bytes(&vec![1, 2, 3], &vec![1, 2, 3]));
    assert!(!same_bytes(&vec![1, 2, 3], &vec![1, 2, 4]));
    assert!(!same_bytes(&vec![1, 2], &vec![1, 2, 3]));
    assert!(same_bytes(&vec![], &vec![]));
    assert!(node_id(4) != node_id(5));
}

#[test]
fn new_worker_waits_to_start() {
    let w = HandshakeWorker::new(node_id(6), UTime(250)).unwrap();
    assert!(matches!(w.phase(), Phase::Init));
    assert!(w.accepts(&Event::Start));
    assert_eq!(w.timeout_duration(), UTime(250));
    assert!(*w.self_node_id() == node_id(6));
}
