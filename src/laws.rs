//! What holds of every handshake, proved over the machine's transition.
use vstd::prelude::*;

use crate::error::{CommunicationErrorView, HandshakeErrorType};
use crate::handshake::{
    accepts, fail, handshake_error, is_finished, next, peer_of, ActionView,
    EventView, PhaseView, RoundOutcomeView, WorkerView,
};
use crate::message::MessageView;

verus! {

/// Feeds `events` to `w` in order, passing over those it does not wait for: the
/// state reached and the actions asked for on the way.
pub open spec fn run(w: WorkerView, events: Seq<EventView>) -> (WorkerView, Seq<ActionView>)
    decreases events.len(),
{
    if events.len() == 0 {
        (w, Seq::empty())
    } else {
        let before = run(w, events.drop_last());
        let e = events.last();
        if accepts(before.0.phase, e) {
            (next(before.0, e).0, before.1.push(next(before.0, e).1))
        } else {
            before
        }
    }
}

/// How many of `actions` ask for a round.
pub open spec fn exchange_count(actions: Seq<ActionView>) -> nat
    decreases actions.len(),
{
    if actions.len() == 0 {
        0
    } else {
        exchange_count(actions.drop_last()) + if actions.last() is Exchange {
            1nat
        } else {
            0nat
        }
    }
}

/// How many rounds a machine in `phase` may still ask for.
pub open spec fn rounds_left(phase: PhaseView) -> nat {
    match phase {
        PhaseView::Init => 2,
        PhaseView::RoundOne => 1,
        PhaseView::Signing(_) => 1,
        _ => 0,
    }
}

/// The message a round action sends.
pub open spec fn sent(action: ActionView) -> MessageView {
    action->message
}

/// True when `phase` holds the identity the peer claimed.
pub open spec fn holds_peer(phase: PhaseView) -> bool {
    phase is Signing || phase is RoundTwo || phase is Verifying || phase is Authenticated
}

/// Running a machine keeps its identity, challenge and deadline; the rounds asked
/// for and the rounds left never exceed what it had left; it asks for a round only
/// under its deadline and to verify only a signature over its own challenge; and an
/// identity it holds is never its own.
proof fn lemma_run_invariant(w: WorkerView, events: Seq<EventView>)
    requires
        !holds_peer(w.phase),
    ensures
        ({
            let (last, actions) = run(w, events);
            &&& last.self_node_id == w.self_node_id
            &&& last.self_random_bytes == w.self_random_bytes
            &&& last.timeout_duration == w.timeout_duration
            &&& exchange_count(actions) + rounds_left(last.phase) <= rounds_left(w.phase)
            &&& forall|i: int|
                0 <= i < actions.len() && (#[trigger] actions[i]) is Exchange ==> actions[i]->timeout
                    == w.timeout_duration
            &&& forall|i: int|
                0 <= i < actions.len() && (#[trigger] actions[i]) is Verify
                    ==> actions[i]->Verify_random_bytes == w.self_random_bytes
            &&& holds_peer(last.phase) ==> peer_of(last.phase) != w.self_node_id
        }),
    decreases events.len(),
{
    if events.len() > 0 {
        lemma_run_invariant(w, events.drop_last());
        let before = run(w, events.drop_last());
        let e = events.last();
        if accepts(before.0.phase, e) {
            let actions = before.1.push(next(before.0, e).1);
            assert(actions.drop_last() =~= before.1);
            assert forall|i: int|
                0 <= i < actions.len() && (#[trigger] actions[i]) is Exchange implies actions[i]->timeout
                == w.timeout_duration by {
                if i < before.1.len() {
                    assert(actions[i] == before.1[i]);
                }
            }
            assert forall|i: int|
                0 <= i < actions.len() && (#[trigger] actions[i]) is Verify
                implies actions[i]->Verify_random_bytes == w.self_random_bytes by {
                if i < before.1.len() {
                    assert(actions[i] == before.1[i]);
                }
            }
        }
    }
}

/// A timeout bound: whatever it is fed, a handshake asks for at most two rounds,
/// each under the configured deadline.
pub proof fn lemma_bounded_rounds(w: WorkerView, events: Seq<EventView>)
    requires
        w.phase is Init,
    ensures
        exchange_count(run(w, events).1) <= 2,
        forall|i: int|
            0 <= i < run(w, events).1.len() && (#[trigger] run(w, events).1[i]) is Exchange
                ==> run(w, events).1[i]->timeout == w.timeout_duration,
{
    lemma_run_invariant(w, events);
}

/// A round whose deadline passes ends the handshake with a timeout error.
pub proof fn lemma_timeout_fails(w: WorkerView)
    requires
        w.phase is RoundOne || w.phase is RoundTwo,
    ensures
        next(w, EventView::Exchanged(RoundOutcomeView::TimedOut)) == fail(
            w,
            handshake_error(HandshakeErrorType::HandshakeTimeoutError),
        ),
        is_finished(next(w, EventView::Exchanged(RoundOutcomeView::TimedOut)).0.phase),
{
}

/// A finished handshake asks for nothing more, whatever it is fed.
pub proof fn lemma_finished_is_final(w: WorkerView, events: Seq<EventView>)
    requires
        is_finished(w.phase),
    ensures
        run(w, events) == (w, Seq::<ActionView>::empty()),
    decreases events.len(),
{
    if events.len() > 0 {
        lemma_finished_is_final(w, events.drop_last());
    }
}

/// A handshake never authenticates a peer under this node's own identity, and only
/// ever checks a signature over this node's own challenge.
pub proof fn lemma_never_authenticates_self(w: WorkerView, events: Seq<EventView>)
    requires
        w.phase is Init,
    ensures
        run(w, events).0.phase is Authenticated ==> peer_of(run(w, events).0.phase)
            != w.self_node_id,
        forall|i: int|
            0 <= i < run(w, events).1.len() && (#[trigger] run(w, events).1[i]) is Verify
                ==> run(w, events).1[i]->Verify_random_bytes == w.self_random_bytes,
{
    lemma_run_invariant(w, events);
}

/// The event of a round that yielded `message`.
pub open spec fn received(message: MessageView) -> EventView {
    EventView::Exchanged(RoundOutcomeView::Received(message))
}

/// Symmetric success: two nodes with distinct identities, each of which receives
/// in every round the message the other sent, and whose signing and verifying
/// succeed, authenticate each other. Each signs the other's challenge, checks the
/// other's signature over its own challenge under the other's key, and ends with
/// the other's identity.
pub proof fn lemma_symmetric_success(
    a: WorkerView,
    b: WorkerView,
    signature_a: Seq<u8>,
    signature_b: Seq<u8>,
)
    requires
        a.phase is Init,
        b.phase is Init,
        a.self_node_id != b.self_node_id,
    ensures
        ({
            let a1 = next(a, EventView::Start);
            let b1 = next(b, EventView::Start);
            let a2 = next(a1.0, received(sent(b1.1)));
            let b2 = next(b1.0, received(sent(a1.1)));
            let a3 = next(a2.0, EventView::Signed(Ok(signature_a)));
            let b3 = next(b2.0, EventView::Signed(Ok(signature_b)));
            let a4 = next(a3.0, received(sent(b3.1)));
            let b4 = next(b3.0, received(sent(a3.1)));
            let a5 = next(a4.0, EventView::Verified(Ok(true)));
            let b5 = next(b4.0, EventView::Verified(Ok(true)));
            &&& accepts(a1.0.phase, received(sent(b1.1)))
            &&& accepts(b1.0.phase, received(sent(a1.1)))
            &&& a2.1 == ActionView::Sign { random_bytes: b.self_random_bytes }
            &&& b2.1 == ActionView::Sign { random_bytes: a.self_random_bytes }
            &&& accepts(a2.0.phase, EventView::Signed(Ok(signature_a)))
            &&& accepts(b2.0.phase, EventView::Signed(Ok(signature_b)))
            &&& accepts(a3.0.phase, received(sent(b3.1)))
            &&& accepts(b3.0.phase, received(sent(a3.1)))
            &&& a4.1 == ActionView::Verify {
                random_bytes: a.self_random_bytes,
                signature: signature_b,
                public_key: b.self_node_id,
            }
            &&& b4.1 == ActionView::Verify {
                random_bytes: b.self_random_bytes,
                signature: signature_a,
                public_key: a.self_node_id,
            }
            &&& accepts(a4.0.phase, EventView::Verified(Ok(true)))
            &&& accepts(b4.0.phase, EventView::Verified(Ok(true)))
            &&& a5.1 == ActionView::Finish(Ok(b.self_node_id))
            &&& b5.1 == ActionView::Finish(Ok(a.self_node_id))
            &&& a5.0.phase == PhaseView::Authenticated(b.self_node_id)
            &&& b5.0.phase == PhaseView::Authenticated(a.self_node_id)
        }),
{
}

/// Self-connection rejection: a round-one initiation that claims this node's own
/// identity ends the handshake with a key error, before anything is signed or
/// verified. In particular two ends presenting the same identity both fail so.
pub proof fn lemma_self_connection_rejected(w: WorkerView, random_bytes: Seq<u8>)
    requires
        w.phase is RoundOne,
    ensures
        next(
            w,
            received(MessageView::HandshakeInitiation { public_key: w.self_node_id, random_bytes }),
        ) == fail(w, handshake_error(HandshakeErrorType::HandshakeKeyError)),
{
}

/// Message-type enforcement: a reply where round one expects an initiation, or an
/// initiation where round two expects a reply, ends the handshake with a
/// wrong-message error and asks for no signing or verifying.
pub proof fn lemma_wrong_message_rejected(w: WorkerView, message: MessageView)
    requires
        (w.phase is RoundOne && message is HandshakeReply) || (w.phase is RoundTwo
            && message is HandshakeInitiation),
    ensures
        next(w, received(message)) == fail(
            w,
            handshake_error(HandshakeErrorType::HandshakeWrongMessageError),
        ),
{
}

/// Signature integrity: the peer's round-two signature is checked as received,
/// over this node's own challenge and under the key the peer claimed; only a
/// successful verification authenticates, a rejected signature ends with an
/// invalid-signature error and a failing verifier with its own error.
pub proof fn lemma_signature_checked(w: WorkerView, signature: Seq<u8>, description: Seq<char>)
    requires
        w.phase is RoundTwo,
    ensures
        ({
            let (v, verify) = next(w, received(MessageView::HandshakeReply { signature }));
            &&& verify == ActionView::Verify {
                random_bytes: w.self_random_bytes,
                signature,
                public_key: peer_of(w.phase),
            }
            &&& v.phase == PhaseView::Verifying(peer_of(w.phase))
            &&& next(v, EventView::Verified(Ok(true))).1 == ActionView::Finish(
                Ok(peer_of(w.phase)),
            )
            &&& next(v, EventView::Verified(Ok(false))) == fail(
                v,
                handshake_error(HandshakeErrorType::HandshakeInvalidSignatureError),
            )
            &&& next(v, EventView::Verified(Err(description))) == fail(
                v,
                CommunicationErrorView::CryptoError(description),
            )
        }),
{
}

/// The machine always waits for the answer to what it asks: after an accepted
/// event, a round is answered by its outcome, a signing by its result and a
/// verification by its verdict, whatever their value; and once it hands out the
/// result it is finished.
pub proof fn lemma_actions_are_answered(w: WorkerView, event: EventView)
    requires
        accepts(w.phase, event),
    ensures
        ({
            let (v, action) = next(w, event);
            &&& action is Exchange ==> forall|o: RoundOutcomeView|
                #[trigger] accepts(v.phase, EventView::Exchanged(o))
            &&& action is Sign ==> forall|r: Result<Seq<u8>, Seq<char>>|
                #[trigger] accepts(v.phase, EventView::Signed(r))
            &&& action is Verify ==> forall|r: Result<bool, Seq<char>>|
                #[trigger] accepts(v.phase, EventView::Verified(r))
            &&& action is Finish ==> is_finished(v.phase)
        }),
{
}

} // verus!
