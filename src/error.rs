//! The ways a handshake can fail.
use vstd::prelude::*;

verus! {

/// A failure that the handshake itself detects.
#[derive(Clone, Copy, Debug, PartialEq, Eq, Structural)]
pub enum HandshakeErrorType {
    /// A round's deadline passed before both its send and its receive completed.
    HandshakeTimeoutError,
    /// The stream ended where a message was expected.
    HandshakeInterruptionError,
    /// The message received is not the one the round expects.
    HandshakeWrongMessageError,
    /// The peer claims this node's own identity.
    HandshakeKeyError,
    /// The peer's signature does not verify against its claimed key.
    HandshakeInvalidSignatureError,
}

/// Any failure of a handshake attempt.
#[derive(Debug)]
pub enum CommunicationError {
    /// Detected by the handshake.
    HandshakeError(HandshakeErrorType),
    /// Reported by the transport while sending or receiving, with its description.
    TransportError(String),
    /// Reported by the signing or verifying capability, with its description.
    CryptoError(String),
}

/// An error, with descriptions as character sequences.
pub enum CommunicationErrorView {
    HandshakeError(HandshakeErrorType),
    TransportError(Seq<char>),
    CryptoError(Seq<char>),
}

impl View for CommunicationError {
    type V = CommunicationErrorView;

    open spec fn view(&self) -> CommunicationErrorView {
        match self {
            CommunicationError::HandshakeError(kind) => CommunicationErrorView::HandshakeError(
                *kind,
            ),
            CommunicationError::TransportError(d) => CommunicationErrorView::TransportError(d@),
            CommunicationError::CryptoError(d) => CommunicationErrorView::CryptoError(d@),
        }
    }
}

impl CommunicationError {
    /// True for the failures that may pass on their own (a timeout, an interrupted
    /// stream); the others point to a misbehaving peer or a broken node.
    pub fn is_transient(&self) -> (r: bool)
        ensures
            r == (self@ == CommunicationErrorView::HandshakeError(
                HandshakeErrorType::HandshakeTimeoutError,
            ) || self@ == CommunicationErrorView::HandshakeError(
                HandshakeErrorType::HandshakeInterruptionError,
            )),
    {
        match self {
            CommunicationError::HandshakeError(HandshakeErrorType::HandshakeTimeoutError) => true,
            CommunicationError::HandshakeError(
                HandshakeErrorType::HandshakeInterruptionError,
            ) => true,
            _ => false,
        }
    }
}

} // verus!
