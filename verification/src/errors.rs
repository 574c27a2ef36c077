//! Error kinds of the protocol layer.

use vstd::prelude::*;

verus! {

/// What can go wrong on one connection.
#[derive(Clone, Copy, Debug, PartialEq, Eq, Structural)]
pub enum ProtocolError {
    /// Malformed or absent header or acknowledge byte during the handshake.
    HandshakeRejected,
    /// A prediction frame held other than the exact required byte count.
    TruncatedFrame,
    /// A header held fewer bytes than the fixed header size.
    MalformedFrame,
    /// Clean end of stream in the middle of a session.
    PeerClosed,
    /// An underlying transport failure other than a clean close.
    IoFailure,
}

impl ProtocolError {
    /// A short description, for callers that report errors as text.
    pub fn describe(&self) -> (r: &'static str)
        ensures
            r@.len() > 0,
    {
        let r = match self {
            ProtocolError::HandshakeRejected => "handshake rejected",
            ProtocolError::TruncatedFrame => "truncated frame",
            ProtocolError::MalformedFrame => "malformed frame",
            ProtocolError::PeerClosed => "peer closed the stream",
            ProtocolError::IoFailure => "transport failure",
        };
        proof {
            reveal_strlit("handshake rejected");
            reveal_strlit("truncated frame");
            reveal_strlit("malformed frame");
            reveal_strlit("peer closed the stream");
            reveal_strlit("transport failure");
        }
        r
    }
}

} // verus!
