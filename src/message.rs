//! The protocol messages that take part in the handshake.
use vstd::prelude::*;

use crate::identity::{PublicKey, Signature};

verus! {

/// A message of the handshake, as the framing layer hands it over.
pub enum Message {
    /// Round one: the sender's identity and its fresh challenge.
    HandshakeInitiation { public_key: PublicKey, random_bytes: [u8; 32] },
    /// Round two: the sender's signature over the hash of the receiver's challenge.
    HandshakeReply { signature: Signature },
}

/// A message, with keys, challenges and signatures as byte sequences.
pub enum MessageView {
    HandshakeInitiation { public_key: Seq<u8>, random_bytes: Seq<u8> },
    HandshakeReply { signature: Seq<u8> },
}

impl View for Message {
    type V = MessageView;

    open spec fn view(&self) -> MessageView {
        match self {
            Message::HandshakeInitiation { public_key, random_bytes } => {
                MessageView::HandshakeInitiation {
                    public_key: public_key@,
                    random_bytes: random_bytes@,
                }
            },
            Message::HandshakeReply { signature } => {
                MessageView::HandshakeReply { signature: signature@ }
            },
        }
    }
}

} // verus!
