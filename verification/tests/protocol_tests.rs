//! Session behaviour: handshake on both roles, the streaming loop of the
//! filter role against an echo predictor, and disconnection handling.

use realtime::errors::ProtocolError;
use realtime::filters::FilterAutoEcho;
use realtime::protocol::{
    FilterConnection, ProbeConnection, SessionState, StreamEvent, ACK_BYTE,
};

#[test]
fn handshake_both_roles_agree() {
    let (mut probe, header) = ProbeConnection::new(3);
    assert_eq!(probe.state, SessionState::Handshaking);
    assert_eq!(header, vec![0, 3]);

    let (filter, ack) = FilterConnection::new(StreamEvent::Data(header)).unwrap();
    assert_eq!(filter.num_neurons, 3);
    assert_eq!(filter.state, SessionState::Streaming);
    assert_eq!(ack, ACK_BYTE);

    probe.on_ack(StreamEvent::Data(vec![ack])).unwrap();
    assert_eq!(probe.state, SessionState::Streaming);
    assert_eq!(probe.num_neurons, 3);
}

#[test]
fn probe_rejects_wrong_ack_byte() {
    let (mut probe, _) = ProbeConnection::new(2);
    let r = probe.on_ack(StreamEvent::Data(vec![0x07]));
    assert_eq!(r, Err(ProtocolError::HandshakeRejected));
    assert_eq!(probe.state, SessionState::Closed);
}

#[test]
fn probe_rejects_closed_stream_before_ack() {
    let (mut probe, _) = ProbeConnection::new(2);
    let r = probe.on_ack(StreamEvent::Closed);
    assert_eq!(r, Err(ProtocolError::HandshakeRejected));
    assert_eq!(probe.state, SessionState::Closed);
}

#[test]
fn filter_rejects_short_header() {
    assert_eq!(
        FilterConnection::new(StreamEvent::Data(vec![5])).unwrap_err(),
        ProtocolError::HandshakeRejected
    );
    assert_eq!(
        FilterConnection::new(StreamEvent::Closed).unwrap_err(),
        ProtocolError::HandshakeRejected
    );
    assert_eq!(
        FilterConnection::new(StreamEvent::Broken).unwrap_err(),
        ProtocolError::HandshakeRejected
    );
}

#[test]
fn end_to_end_echo_session() {
    // Probe side: three channels, three spike vectors to an echo filter.
    let (mut probe, header) = ProbeConnection::new(3);
    let (mut filter_conn, ack) = FilterConnection::new(StreamEvent::Data(header)).unwrap();
    probe.on_ack(StreamEvent::Data(vec![ack])).unwrap();
    let mut filter = FilterAutoEcho {};

    let spike_vectors = [vec![1u8, 0, 2], vec![0u8, 0, 1], vec![2u8, 1, 0]];
    let expected = [[1.0f64, 0.0, 2.0], [0.0, 0.0, 1.0], [2.0, 1.0, 0.0]];

    for (spks, want) in spike_vectors.iter().zip(expected.iter()) {
        // Probe sends the spike bytes verbatim.
        let wire = probe.send(spks);
        assert_eq!(&wire, spks);

        // Filter-side step: judge the read, predict, encode the reply.
        let reply = filter_conn
            .step(StreamEvent::Data(wire), &mut filter)
            .unwrap()
            .unwrap();
        assert_eq!(reply.len(), 24, "each reply is 3 x 8 bytes");

        // Probe decodes the reply to the expected prediction vector.
        let preds = probe.recv(StreamEvent::Data(reply)).unwrap();
        let floats: Vec<f64> = preds.iter().map(|&b| f64::from_bits(b)).collect();
        assert_eq!(&floats, want);
    }
    assert_eq!(probe.state, SessionState::Streaming);
    assert_eq!(filter_conn.state, SessionState::Streaming);
}

#[test]
fn disconnection_closes_filter_session_without_error() {
    let (mut filter_conn, _) = FilterConnection::new(StreamEvent::Data(vec![0, 2])).unwrap();
    let mut filter = FilterAutoEcho {};
    let r = filter_conn.step(StreamEvent::Closed, &mut filter);
    assert_eq!(r, Ok(None), "a clean peer disconnect is not an error");
    assert_eq!(filter_conn.state, SessionState::Closed);
}

#[test]
fn filter_surfaces_transport_failure() {
    let (mut filter_conn, _) = FilterConnection::new(StreamEvent::Data(vec![0, 2])).unwrap();
    let r = filter_conn.recv(StreamEvent::Broken);
    assert_eq!(r, Err(ProtocolError::IoFailure));
    assert_eq!(filter_conn.state, SessionState::Closed);
}

#[test]
fn filter_rejects_short_spike_frame() {
    let (mut filter_conn, _) = FilterConnection::new(StreamEvent::Data(vec![0, 3])).unwrap();
    let r = filter_conn.recv(StreamEvent::Data(vec![1, 2]));
    assert_eq!(r, Err(ProtocolError::TruncatedFrame));
    assert_eq!(filter_conn.state, SessionState::Closed);
}

#[test]
fn probe_truncated_reply_is_nonfatal() {
    let (mut probe, _) = ProbeConnection::new(2);
    probe.on_ack(StreamEvent::Data(vec![ACK_BYTE])).unwrap();
    let r = probe.recv(StreamEvent::Data(vec![1, 2, 3]));
    assert_eq!(r, Err(ProtocolError::TruncatedFrame));
    assert_eq!(probe.state, SessionState::Streaming, "the loop may continue");
    // A full disconnection, by contrast, is fatal.
    let r2 = probe.recv(StreamEvent::Closed);
    assert_eq!(r2, Err(ProtocolError::PeerClosed));
    assert_eq!(probe.state, SessionState::Closed);
}

#[test]
fn explicit_shutdown_closes_both_roles() {
    let (mut probe, header) = ProbeConnection::new(1);
    probe.close();
    assert_eq!(probe.state, SessionState::Closed);
    let (mut filter_conn, _) = FilterConnection::new(StreamEvent::Data(header)).unwrap();
    filter_conn.close();
    assert_eq!(filter_conn.state, SessionState::Closed);
}

#[test]
fn error_descriptions_are_nonempty() {
    for e in [
        ProtocolError::HandshakeRejected,
        ProtocolError::TruncatedFrame,
        ProtocolError::MalformedFrame,
        ProtocolError::PeerClosed,
        ProtocolError::IoFailure,
    ] {
        assert!(!e.describe().is_empty());
    }
}
