//! The handshake state machine.
//!
//! A handshake runs two rounds. In each, the driver sends one message and
//! receives the next one concurrently, both under one deadline. Between the
//! rounds the peer's identity is checked against this node's own and the
//! peer's challenge is signed; after the second round the peer's signature
//! over this node's challenge is verified.
//!
//! The machine decides; the driver performs. Each call of
//! [`HandshakeWorker::step`] takes what came of the previous action and
//! returns the next one, until an [`Action::Finish`] hands out the result.
use vstd::prelude::*;

use crate::error::{CommunicationError, CommunicationErrorView, HandshakeErrorType};
use crate::identity::{NodeId, PublicKey, Signature};
use crate::message::{Message, MessageView};
use crate::nonce::fresh_random_bytes;
use crate::utime::UTime;

verus! {

/// What came of a round: a send and a receive raced against one deadline.
pub enum RoundOutcome {
    /// The deadline passed before both the send and the receive completed.
    TimedOut,
    /// The send or the receive failed first.
    Failed(CommunicationError),
    /// The stream ended with no message.
    Ended,
    /// Both completed; this is the message received.
    Received(Message),
}

/// What the driver hands to the machine.
pub enum Event {
    /// Begin the handshake.
    Start,
    /// The outcome of the round that was asked for.
    Exchanged(RoundOutcome),
    /// The signature over the hash of the bytes given in [`Action::Sign`], made with
    /// this node's private key, or the signer's failure.
    Signed(Result<Signature, String>),
    /// Whether the signature given in [`Action::Verify`] is valid for the hash of the
    /// given bytes under the given key, or the verifier's failure.
    Verified(Result<bool, String>),
}

/// What the machine asks the driver to do next.
pub enum Action {
    /// Send `message` and receive the next message concurrently; give up on both
    /// once `timeout` has passed.
    Exchange { message: Message, timeout: UTime },
    /// Sign the hash of `random_bytes` with this node's private key.
    Sign { random_bytes: [u8; 32] },
    /// Check `signature` over the hash of `random_bytes` against `public_key`.
    Verify { random_bytes: [u8; 32], signature: Signature, public_key: PublicKey },
    /// The handshake is over: the authenticated peer, or why it failed.
    Finish(Result<NodeId, CommunicationError>),
}

/// Where a handshake stands. The identity held from `Signing` on is the one the
/// peer claimed in round one.
pub enum Phase {
    Init,
    RoundOne,
    Signing(NodeId),
    RoundTwo(NodeId),
    Verifying(NodeId),
    Authenticated(NodeId),
    Failed,
}

pub enum RoundOutcomeView {
    TimedOut,
    Failed(CommunicationErrorView),
    Ended,
    Received(MessageView),
}

pub enum EventView {
    Start,
    Exchanged(RoundOutcomeView),
    Signed(Result<Seq<u8>, Seq<char>>),
    Verified(Result<bool, Seq<char>>),
}

pub enum ActionView {
    Exchange { message: MessageView, timeout: u64 },
    Sign { random_bytes: Seq<u8> },
    Verify { random_bytes: Seq<u8>, signature: Seq<u8>, public_key: Seq<u8> },
    Finish(Result<Seq<u8>, CommunicationErrorView>),
}

pub enum PhaseView {
    Init,
    RoundOne,
    Signing(Seq<u8>),
    RoundTwo(Seq<u8>),
    Verifying(Seq<u8>),
    Authenticated(Seq<u8>),
    Failed,
}

impl View for RoundOutcome {
    type V = RoundOutcomeView;

    open spec fn view(&self) -> RoundOutcomeView {
        match self {
            RoundOutcome::TimedOut => RoundOutcomeView::TimedOut,
            RoundOutcome::Failed(e) => RoundOutcomeView::Failed(e@),
            RoundOutcome::Ended => RoundOutcomeView::Ended,
            RoundOutcome::Received(m) => RoundOutcomeView::Received(m@),
        }
    }
}

impl View for Event {
    type V = EventView;

    open spec fn view(&self) -> EventView {
        match self {
            Event::Start => EventView::Start,
            Event::Exchanged(o) => EventView::Exchanged(o@),
            Event::Signed(r) => EventView::Signed(
                match r {
                    Ok(s) => Ok(s@),
                    Err(d) => Err(d@),
                },
            ),
            Event::Verified(r) => EventView::Verified(
                match r {
                    Ok(b) => Ok(*b),
                    Err(d) => Err(d@),
                },
            ),
        }
    }
}

impl View for Action {
    type V = ActionView;

    open spec fn view(&self) -> ActionView {
        match self {
            Action::Exchange { message, timeout } => ActionView::Exchange {
                message: message@,
                timeout: timeout.0,
            },
            Action::Sign { random_bytes } => ActionView::Sign { random_bytes: random_bytes@ },
            Action::Verify { random_bytes, signature, public_key } => ActionView::Verify {
                random_bytes: random_bytes@,
                signature: signature@,
                public_key: public_key@,
            },
            Action::Finish(r) => ActionView::Finish(
                match r {
                    Ok(id) => Ok(id@),
                    Err(e) => Err(e@),
                },
            ),
        }
    }
}

impl View for Phase {
    type V = PhaseView;

    open spec fn view(&self) -> PhaseView {
        match self {
            Phase::Init => PhaseView::Init,
            Phase::RoundOne => PhaseView::RoundOne,
            Phase::Signing(id) => PhaseView::Signing(id@),
            Phase::RoundTwo(id) => PhaseView::RoundTwo(id@),
            Phase::Verifying(id) => PhaseView::Verifying(id@),
            Phase::Authenticated(id) => PhaseView::Authenticated(id@),
            Phase::Failed => PhaseView::Failed,
        }
    }
}

/// One handshake attempt, seen by this node.
pub struct HandshakeWorker {
    /// This node's identity.
    self_node_id: NodeId,
    /// This attempt's challenge.
    self_random_bytes: [u8; 32],
    /// The deadline of each round.
    timeout_duration: UTime,
    phase: Phase,
}

pub struct WorkerView {
    pub self_node_id: Seq<u8>,
    pub self_random_bytes: Seq<u8>,
    pub timeout_duration: u64,
    pub phase: PhaseView,
}

impl View for HandshakeWorker {
    type V = WorkerView;

    closed spec fn view(&self) -> WorkerView {
        WorkerView {
            self_node_id: self.self_node_id@,
            self_random_bytes: self.self_random_bytes@,
            timeout_duration: self.timeout_duration.0,
            phase: self.phase@,
        }
    }
}

/// True when a machine in `phase` waits for `event`: the start in `Init`, a round's
/// outcome during a round, a signature while signing, a verdict while verifying.
/// A finished machine waits for nothing.
pub open spec fn accepts(phase: PhaseView, event: EventView) -> bool {
    match event {
        EventView::Start => phase is Init,
        EventView::Exchanged(_) => phase is RoundOne || phase is RoundTwo,
        EventView::Signed(_) => phase is Signing,
        EventView::Verified(_) => phase is Verifying,
    }
}

/// True when the handshake is over.
pub open spec fn is_finished(phase: PhaseView) -> bool {
    phase is Authenticated || phase is Failed
}

/// The error of a handshake that failed on its own account.
pub open spec fn handshake_error(kind: HandshakeErrorType) -> CommunicationErrorView {
    CommunicationErrorView::HandshakeError(kind)
}

/// Ends the handshake with `error`.
pub open spec fn fail(w: WorkerView, error: CommunicationErrorView) -> (WorkerView, ActionView) {
    (WorkerView { phase: PhaseView::Failed, ..w }, ActionView::Finish(Err(error)))
}

/// Moves to `phase` and asks for `action`.
pub open spec fn advance(w: WorkerView, phase: PhaseView, action: ActionView) -> (
    WorkerView,
    ActionView,
) {
    (WorkerView { phase, ..w }, action)
}

/// The message this node sends in round one.
pub open spec fn initiation_of(w: WorkerView) -> MessageView {
    MessageView::HandshakeInitiation {
        public_key: w.self_node_id,
        random_bytes: w.self_random_bytes,
    }
}

/// How a round that did not yield a message ends the handshake.
pub open spec fn round_error(outcome: RoundOutcomeView) -> CommunicationErrorView {
    match outcome {
        RoundOutcomeView::TimedOut => handshake_error(HandshakeErrorType::HandshakeTimeoutError),
        RoundOutcomeView::Failed(e) => e,
        RoundOutcomeView::Ended => handshake_error(HandshakeErrorType::HandshakeInterruptionError),
        RoundOutcomeView::Received(_) => handshake_error(
            HandshakeErrorType::HandshakeWrongMessageError,
        ),
    }
}

/// Round one yielded `message`: a peer's initiation under another identity moves on
/// to signing the peer's challenge.
pub open spec fn after_round_one(w: WorkerView, message: MessageView) -> (WorkerView, ActionView) {
    match message {
        MessageView::HandshakeInitiation { public_key, random_bytes } => {
            if public_key == w.self_node_id {
                fail(w, handshake_error(HandshakeErrorType::HandshakeKeyError))
            } else {
                advance(w, PhaseView::Signing(public_key), ActionView::Sign { random_bytes })
            }
        },
        MessageView::HandshakeReply { .. } => fail(
            w,
            handshake_error(HandshakeErrorType::HandshakeWrongMessageError),
        ),
    }
}

/// Round two yielded `message`: a reply moves on to checking its signature over this
/// node's challenge against the key of `peer`.
pub open spec fn after_round_two(w: WorkerView, peer: Seq<u8>, message: MessageView) -> (
    WorkerView,
    ActionView,
) {
    match message {
        MessageView::HandshakeReply { signature } => advance(
            w,
            PhaseView::Verifying(peer),
            ActionView::Verify { random_bytes: w.self_random_bytes, signature, public_key: peer },
        ),
        MessageView::HandshakeInitiation { .. } => fail(
            w,
            handshake_error(HandshakeErrorType::HandshakeWrongMessageError),
        ),
    }
}

/// The identity the peer claimed in round one, from signing on.
pub open spec fn peer_of(phase: PhaseView) -> Seq<u8> {
    match phase {
        PhaseView::Signing(peer) => peer,
        PhaseView::RoundTwo(peer) => peer,
        PhaseView::Verifying(peer) => peer,
        PhaseView::Authenticated(peer) => peer,
        _ => Seq::empty(),
    }
}

/// The machine's transition: the next state and the action asked for, when `w`
/// receives `event`. Meaningful where `accepts(w.phase, event)`.
pub open spec fn next(w: WorkerView, event: EventView) -> (WorkerView, ActionView) {
    match event {
        EventView::Start => advance(
            w,
            PhaseView::RoundOne,
            ActionView::Exchange { message: initiation_of(w), timeout: w.timeout_duration },
        ),
        EventView::Exchanged(outcome) => match outcome {
            RoundOutcomeView::Received(message) => if w.phase is RoundTwo {
                after_round_two(w, peer_of(w.phase), message)
            } else {
                after_round_one(w, message)
            },
            _ => fail(w, round_error(outcome)),
        },
        EventView::Signed(signed) => match signed {
            Ok(signature) => advance(
                w,
                PhaseView::RoundTwo(peer_of(w.phase)),
                ActionView::Exchange {
                    message: MessageView::HandshakeReply { signature },
                    timeout: w.timeout_duration,
                },
            ),
            Err(d) => fail(w, CommunicationErrorView::CryptoError(d)),
        },
        EventView::Verified(verdict) => match verdict {
            Ok(true) => advance(
                w,
                PhaseView::Authenticated(peer_of(w.phase)),
                ActionView::Finish(Ok(peer_of(w.phase))),
            ),
            Ok(false) => fail(
                w,
                handshake_error(HandshakeErrorType::HandshakeInvalidSignatureError),
            ),
            Err(d) => fail(w, CommunicationErrorView::CryptoError(d)),
        },
    }
}

/// The error of a handshake that failed on its own account.
fn handshake_failure(kind: HandshakeErrorType) -> (r: Action)
    ensures
        r@ == ActionView::Finish(Err(handshake_error(kind))),
{
    Action::Finish(Err(CommunicationError::HandshakeError(kind)))
}

impl HandshakeWorker {
    /// A worker for one handshake attempt of the node `self_node_id`, whose rounds
    /// each last at most `timeout_duration`, with a fresh challenge drawn from the
    /// operating system's entropy; where that source fails, its error.
    pub fn new(self_node_id: NodeId, timeout_duration: UTime) -> (r: Result<
        HandshakeWorker,
        CommunicationError,
    >)
        ensures
            r matches Ok(w) ==> {
                &&& w@.self_node_id == self_node_id@
                &&& w@.timeout_duration == timeout_duration.0
                &&& w@.self_random_bytes.len() == 32
                &&& w@.phase == PhaseView::Init
            },
            r matches Err(e) ==> e is CryptoError,
    {
        match fresh_random_bytes() {
            Ok(random_bytes) => Ok(
                HandshakeWorker::with_random_bytes(self_node_id, timeout_duration, random_bytes),
            ),
            Err(description) => Err(CommunicationError::CryptoError(description)),
        }
    }

    /// A worker for one handshake attempt whose challenge is `self_random_bytes`.
    pub fn with_random_bytes(
        self_node_id: NodeId,
        timeout_duration: UTime,
        self_random_bytes: [u8; 32],
    ) -> (r: HandshakeWorker)
        ensures
            r@ == (WorkerView {
                self_node_id: self_node_id@,
                self_random_bytes: self_random_bytes@,
                timeout_duration: timeout_duration.0,
                phase: PhaseView::Init,
            }),
    {
        HandshakeWorker { self_node_id, self_random_bytes, timeout_duration, phase: Phase::Init }
    }

    pub fn self_node_id(&self) -> (r: &NodeId)
        ensures
            r@ == self@.self_node_id,
    {
        &self.self_node_id
    }

    pub fn self_random_bytes(&self) -> (r: [u8; 32])
        ensures
            r@ == self@.self_random_bytes,
    {
        self.self_random_bytes
    }

    pub fn timeout_duration(&self) -> (r: UTime)
        ensures
            r.0 == self@.timeout_duration,
    {
        self.timeout_duration
    }

    pub fn phase(&self) -> (r: &Phase)
        ensures
            r@ == self@.phase,
    {
        &self.phase
    }

    /// True when the handshake is over, authenticated or failed.
    pub fn is_finished(&self) -> (r: bool)
        ensures
            r == is_finished(self@.phase),
    {
        match self.phase {
            Phase::Authenticated(_) | Phase::Failed => true,
            _ => false,
        }
    }

    /// True when the worker waits for `event` (see [`accepts`]).
    pub fn accepts(&self, event: &Event) -> (r: bool)
        ensures
            r == accepts(self@.phase, event@),
    {
        match event {
            Event::Start => matches!(self.phase, Phase::Init),
            Event::Exchanged(_) => matches!(self.phase, Phase::RoundOne | Phase::RoundTwo(_)),
            Event::Signed(_) => matches!(self.phase, Phase::Signing(_)),
            Event::Verified(_) => matches!(self.phase, Phase::Verifying(_)),
        }
    }

    /// Takes what came of the last action and returns the next one.
    pub fn step(&mut self, event: Event) -> (action: Action)
        requires
            accepts(old(self)@.phase, event@),
        ensures
            (final(self)@, action@) == next(old(self)@, event@),
    {
        let mut phase = Phase::Failed;
        std::mem::swap(&mut self.phase, &mut phase);
        match event {
            Event::Start => {
                self.phase = Phase::RoundOne;
                let message = Message::HandshakeInitiation {
                    public_key: self.self_node_id.0.clone(),
                    random_bytes: self.self_random_bytes,
                };
                Action::Exchange { message, timeout: self.timeout_duration }
            },
            Event::Exchanged(outcome) => match outcome {
                RoundOutcome::TimedOut => handshake_failure(
                    HandshakeErrorType::HandshakeTimeoutError,
                ),
                RoundOutcome::Failed(e) => Action::Finish(Err(e)),
                RoundOutcome::Ended => handshake_failure(
                    HandshakeErrorType::HandshakeInterruptionError,
                ),
                RoundOutcome::Received(message) => match phase {
                    Phase::RoundTwo(peer) => match message {
                        Message::HandshakeReply { signature } => {
                            let public_key = peer.0.clone();
                            self.phase = Phase::Verifying(peer);
                            Action::Verify {
                                random_bytes: self.self_random_bytes,
                                signature,
                                public_key,
                            }
                        },
                        Message::HandshakeInitiation { .. } => handshake_failure(
                            HandshakeErrorType::HandshakeWrongMessageError,
                        ),
                    },
                    _ => match message {
                        Message::HandshakeInitiation { public_key, random_bytes } => {
                            let other_node_id = NodeId(public_key);
                            if other_node_id == self.self_node_id {
                                handshake_failure(HandshakeErrorType::HandshakeKeyError)
                            } else {
                                self.phase = Phase::Signing(other_node_id);
                                Action::Sign { random_bytes }
                            }
                        },
                        Message::HandshakeReply { .. } => handshake_failure(
                            HandshakeErrorType::HandshakeWrongMessageError,
                        ),
                    },
                },
            },
            Event::Signed(signed) => match signed {
                Ok(signature) => match phase {
                    Phase::Signing(peer) => {
                        self.phase = Phase::RoundTwo(peer);
                        Action::Exchange {
                            message: Message::HandshakeReply { signature },
                            timeout: self.timeout_duration,
                        }
                    },
                    _ => {
                        proof {
                            assert(false);
                        }
                        handshake_failure(HandshakeErrorType::HandshakeKeyError)
                    },
                },
                Err(d) => Action::Finish(Err(CommunicationError::CryptoError(d))),
            },
            Event::Verified(verdict) => match verdict {
                Ok(true) => match phase {
                    Phase::Verifying(peer) => {
                        let other_node_id = peer.clone();
                        self.phase = Phase::Authenticated(peer);
                        Action::Finish(Ok(other_node_id))
                    },
                    _ => {
                        proof {
                            assert(false);
                        }
                        handshake_failure(HandshakeErrorType::HandshakeKeyError)
                    },
                },
                Ok(false) => handshake_failure(HandshakeErrorType::HandshakeInvalidSignatureError),
                Err(d) => Action::Finish(Err(CommunicationError::CryptoError(d))),
            },
        }
    }
}

} // verus!
