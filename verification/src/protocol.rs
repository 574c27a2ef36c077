//! Per-connection protocol state machines for the probe and filter roles.
//!
//! Each connection is layered on one bidirectional byte stream that the
//! surrounding application owns; the application performs the blocking
//! reads and writes and hands every outcome in here as a [`StreamEvent`].
//! Everything between those edges — the handshake decisions, frame sizing,
//! encoding and decoding, and the transition to `Closed` — stands here.

use vstd::prelude::*;
use crate::codec::{
    header_bytes_of, header_value_of, frame_bytes_of, frame_values_of, samples_of_counts,
    encode_header, decode_header, encode_predictions, decode_predictions, counts_to_samples,
};
use crate::errors::ProtocolError;
use crate::filters::FilterAuto;

verus! {

/// Byte sent for the 'acknowledge' signal of a successful handshake.
pub const ACK_BYTE: u8 = 0x06;

/// What one blocking read of the underlying stream produced.
#[derive(Debug)]
pub enum StreamEvent {
    /// The requested bytes arrived whole.
    Data(Vec<u8>),
    /// Clean end of stream before the requested bytes.
    Closed,
    /// An underlying transport failure other than a clean close.
    Broken,
}

/// Where a connection stands in its lifecycle. `Closed` is terminal.
#[derive(Clone, Copy, Debug, PartialEq, Eq, Structural)]
pub enum SessionState {
    /// The one-time width negotiation is still under way.
    Handshaking,
    /// The handshake succeeded; fixed-size frames are being exchanged.
    Streaming,
    /// The stream ended, failed, or was shut down.
    Closed,
}

/// Probe (initiator) side of one connection: sends spike vectors, receives
/// prediction frames. The channel count is fixed for the connection's life.
#[derive(Debug)]
pub struct ProbeConnection {
    /// The negotiated vector width.
    pub num_neurons: u16,
    /// Lifecycle state.
    pub state: SessionState,
}

impl ProbeConnection {
    /// Open the initiator handshake: a fresh connection awaiting the
    /// acknowledge byte, and the header to send to the responder.
    pub fn new(num_neurons: u16) -> (r: (ProbeConnection, Vec<u8>))
        ensures
            r.0.num_neurons == num_neurons,
            r.0.state == SessionState::Handshaking,
            r.1@ == header_bytes_of(num_neurons),
    {
        let hdr = encode_header(num_neurons);
        (ProbeConnection { num_neurons, state: SessionState::Handshaking }, hdr)
    }

    /// Judge the responder's one-byte reply. Exactly the acknowledge byte
    /// opens streaming; any other byte, a short read, or a lost stream
    /// rejects the handshake and the connection is closed.
    pub fn on_ack(&mut self, evt: StreamEvent) -> (r: Result<(), ProtocolError>)
        requires
            old(self).state == SessionState::Handshaking,
        ensures
            final(self).num_neurons == old(self).num_neurons,
            evt matches StreamEvent::Data(b) ==> ((b@ == seq![ACK_BYTE] ==> (r == Ok::<
                (),
                ProtocolError,
            >(()) && final(self).state == SessionState::Streaming)) && (b@ != seq![ACK_BYTE] ==> (r
                == Err::<(), ProtocolError>(ProtocolError::HandshakeRejected) && final(self).state
                == SessionState::Closed))),
            evt matches StreamEvent::Closed ==> (r == Err::<(), ProtocolError>(
                ProtocolError::HandshakeRejected,
            ) && final(self).state == SessionState::Closed),
            evt matches StreamEvent::Broken ==> (r == Err::<(), ProtocolError>(
                ProtocolError::HandshakeRejected,
            ) && final(self).state == SessionState::Closed),
    {
        match evt {
            StreamEvent::Data(b) => {
                if b.len() == 1 && b[0] == ACK_BYTE {
                    proof {
                        assert(b@ =~= seq![ACK_BYTE]);
                    }
                    self.state = SessionState::Streaming;
                    Ok(())
                } else {
                    proof {
                        assert(b@.len() == 1 && b@[0] == ACK_BYTE ==> b@ =~= seq![ACK_BYTE]);
                    }
                    self.state = SessionState::Closed;
                    Err(ProtocolError::HandshakeRejected)
                }
            },
            _ => {
                self.state = SessionState::Closed;
                Err(ProtocolError::HandshakeRejected)
            },
        }
    }

    /// The bytes of one outbound spike vector: the counts go on the wire
    /// verbatim, one byte per channel.
    pub fn send(&self, spks: &Vec<u8>) -> (r: Vec<u8>)
        requires
            self.state == SessionState::Streaming,
            spks@.len() == self.num_neurons,
        ensures
            r@ == spks@,
    {
        let mut out: Vec<u8> = Vec::new();
        let mut i: usize = 0;
        while i < spks.len()
            invariant
                i <= spks@.len(),
                out@ == spks@.take(i as int),
            decreases spks@.len() - i,
        {
            out.push(spks[i]);
            proof {
                assert(out@ =~= spks@.take(i + 1));
            }
            i = i + 1;
        }
        proof {
            assert(out@ =~= spks@);
        }
        out
    }

    /// Explicit shutdown: `Closed` is terminal and reachable from any state.
    pub fn close(&mut self)
        ensures
            final(self).state == SessionState::Closed,
            final(self).num_neurons == old(self).num_neurons,
    {
        self.state = SessionState::Closed;
    }

    /// Judge one inbound reply. A frame of exactly eight bytes per channel
    /// decodes to the prediction vector and streaming goes on; a frame of
    /// any other size is a per-step decode failure that leaves the
    /// connection open for the next step; a clean close or a transport
    /// failure ends the connection.
    pub fn recv(&mut self, evt: StreamEvent) -> (r: Result<Vec<u64>, ProtocolError>)
        requires
            old(self).state == SessionState::Streaming,
        ensures
            final(self).num_neurons == old(self).num_neurons,
            evt matches StreamEvent::Data(b) ==> ((b@.len() == 8 * (old(self).num_neurons as int)
                ==> (r matches Ok(v) && v@ == frame_values_of(b@) && final(self).state
                == SessionState::Streaming)) && (b@.len() != 8 * (old(self).num_neurons as int)
                ==> (r == Err::<Vec<u64>, ProtocolError>(ProtocolError::TruncatedFrame)
                && final(self).state == SessionState::Streaming))),
            (evt matches StreamEvent::Closed) ==> (r == Err::<Vec<u64>, ProtocolError>(
                ProtocolError::PeerClosed,
            ) && final(self).state == SessionState::Closed),
            (evt matches StreamEvent::Broken) ==> (r == Err::<Vec<u64>, ProtocolError>(
                ProtocolError::IoFailure,
            ) && final(self).state == SessionState::Closed),
    {
        match evt {
            StreamEvent::Data(b) => decode_predictions(&b, self.num_neurons),
            StreamEvent::Closed => {
                self.state = SessionState::Closed;
                Err(ProtocolError::PeerClosed)
            },
            StreamEvent::Broken => {
                self.state = SessionState::Closed;
                Err(ProtocolError::IoFailure)
            },
        }
    }
}

/// Filter (responder) side of one connection: receives spike vectors,
/// replies with prediction frames. The channel count comes from the wire.
#[derive(Debug)]
pub struct FilterConnection {
    /// The vector width decoded from the initiator's header.
    pub num_neurons: u16,
    /// Lifecycle state.
    pub state: SessionState,
}

impl FilterConnection {
    /// Judge the initiator's header. Two (or more) arrived bytes decode to
    /// the channel count, the connection opens, and the acknowledge byte is
    /// returned for sending; a short read or a lost stream rejects the
    /// handshake, and no reply byte exists to be sent.
    pub fn new(evt: StreamEvent) -> (r: Result<(FilterConnection, u8), ProtocolError>)
        ensures
            evt matches StreamEvent::Data(b) ==> ((b@.len() >= 2 ==> (r matches Ok(c) && c.0.num_neurons
                == header_value_of(b@.take(2)) && c.0.state == SessionState::Streaming && c.1
                == ACK_BYTE)) && (b@.len() < 2 ==> r == Err::<(FilterConnection, u8), ProtocolError>(
                ProtocolError::HandshakeRejected,
            ))),
            evt matches StreamEvent::Closed ==> r == Err::<(FilterConnection, u8), ProtocolError>(
                ProtocolError::HandshakeRejected,
            ),
            evt matches StreamEvent::Broken ==> r == Err::<(FilterConnection, u8), ProtocolError>(
                ProtocolError::HandshakeRejected,
            ),
    {
        match evt {
            StreamEvent::Data(b) => {
                match decode_header(&b) {
                    Ok(n) => Ok(
                        (FilterConnection { num_neurons: n, state: SessionState::Streaming }, ACK_BYTE),
                    ),
                    Err(_) => Err(ProtocolError::HandshakeRejected),
                }
            },
            _ => Err(ProtocolError::HandshakeRejected),
        }
    }

    /// Explicit shutdown: `Closed` is terminal and reachable from any state.
    pub fn close(&mut self)
        ensures
            final(self).state == SessionState::Closed,
            final(self).num_neurons == old(self).num_neurons,
    {
        self.state = SessionState::Closed;
    }

    /// Judge one inbound spike read. A vector of exactly one byte per
    /// channel is handed on whole; a clean close ends the session without
    /// an error, a disconnect being expected lifecycle rather than a
    /// fault; a short frame or a transport failure is surfaced and closes
    /// the session.
    pub fn recv(&mut self, evt: StreamEvent) -> (r: Result<Option<Vec<u8>>, ProtocolError>)
        requires
            old(self).state == SessionState::Streaming,
        ensures
            final(self).num_neurons == old(self).num_neurons,
            evt matches StreamEvent::Data(b) ==> ((b@.len() == old(self).num_neurons as int ==> (
            r matches Ok(s) && s matches Some(v) && v@ == b@ && final(self).state
                == SessionState::Streaming)) && (b@.len() != old(self).num_neurons as int ==> (r
                == Err::<Option<Vec<u8>>, ProtocolError>(ProtocolError::TruncatedFrame) && final(self).state == SessionState::Closed))),
            evt matches StreamEvent::Closed ==> (r == Ok::<Option<Vec<u8>>, ProtocolError>(None)
                && final(self).state == SessionState::Closed),
            evt matches StreamEvent::Broken ==> (r == Err::<Option<Vec<u8>>, ProtocolError>(
                ProtocolError::IoFailure,
            ) && final(self).state == SessionState::Closed),
    {
        match evt {
            StreamEvent::Data(b) => {
                if b.len() == self.num_neurons as usize {
                    Ok(Some(b))
                } else {
                    self.state = SessionState::Closed;
                    Err(ProtocolError::TruncatedFrame)
                }
            },
            StreamEvent::Closed => {
                self.state = SessionState::Closed;
                Ok(None)
            },
            StreamEvent::Broken => {
                self.state = SessionState::Closed;
                Err(ProtocolError::IoFailure)
            },
        }
    }

    /// The bytes of one outbound reply: the prediction vector's frame,
    /// eight big-endian bytes per channel.
    pub fn send(&self, preds: &Vec<u64>) -> (r: Vec<u8>)
        requires
            self.state == SessionState::Streaming,
            preds@.len() == self.num_neurons,
        ensures
            r@ == frame_bytes_of(preds@),
            r@.len() == 8 * (self.num_neurons as int),
    {
        encode_predictions(preds)
    }

    /// One whole step of the filter role's streaming loop: judge the read,
    /// feed the spike vector to the predictor as double bit patterns, and
    /// encode the forecast as the reply frame. A clean close ends the
    /// session with no reply and no error.
    pub fn step<F: FilterAuto>(&mut self, evt: StreamEvent, filter: &mut F) -> (r: Result<
        Option<Vec<u8>>,
        ProtocolError,
    >)
        requires
            old(self).state == SessionState::Streaming,
            old(filter).wf(),
            old(filter).accepts_len(old(self).num_neurons as nat),
        ensures
            final(self).num_neurons == old(self).num_neurons,
            final(filter).wf(),
            evt matches StreamEvent::Data(b) ==> ((b@.len() == old(self).num_neurons as int ==> (
            r matches Ok(s) && s matches Some(f) && f@ == frame_bytes_of(
                old(filter).next_prediction(samples_of_counts(b@)),
            ) && *final(filter) == old(filter).next_state(samples_of_counts(b@)) && final(self).state == SessionState::Streaming)) && (b@.len() != old(self).num_neurons as int ==> (
            r == Err::<Option<Vec<u8>>, ProtocolError>(ProtocolError::TruncatedFrame) && final(self).state == SessionState::Closed && *final(filter) == *old(filter)))),
            evt matches StreamEvent::Closed ==> (r == Ok::<Option<Vec<u8>>, ProtocolError>(None)
                && final(self).state == SessionState::Closed && *final(filter) == *old(filter)),
            evt matches StreamEvent::Broken ==> (r == Err::<Option<Vec<u8>>, ProtocolError>(
                ProtocolError::IoFailure,
            ) && final(self).state == SessionState::Closed && *final(filter) == *old(filter)),
    {
        match self.recv(evt) {
            Ok(Some(spks)) => {
                let samples = counts_to_samples(&spks);
                let preds = filter.predict_next(&samples);
                let frame = self.send(&preds);
                Ok(Some(frame))
            },
            Ok(None) => Ok(None),
            Err(e) => Err(e),
        }
    }
}

} // verus!
