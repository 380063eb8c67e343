use romio::connect::{probe_take_error, probe_write_ready, ConnectFuture, ConnectProbe, OnFailure, ProbeStep};
use romio::error::{ErrorKind, IoError};
use romio::net::udp;
use romio::poll::Poll;
use romio::uds::datagram as uds;

fn err(kind: ErrorKind) -> IoError {
    IoError::new(kind, "boom")
}

#[test]
fn connect_waits_then_connects() {
    let mut f = ConnectFuture::new(Ok("socket"), OnFailure::End);
    assert_eq!(f.stream(), Some(&"socket"));
    assert!(f.poll(ConnectProbe::NotWritable).is_pending());
    assert_eq!(f.stream(), Some(&"socket"));
    match f.poll(ConnectProbe::Connected) {
        Poll::Ready(Ok(s)) => assert_eq!(s, "socket"),
        _ => panic!("expected the stream"),
    }
    assert_eq!(f.stream(), None);
}

#[test]
fn connect_failure_keeps_the_socket() {
    let mut f = ConnectFuture::new(Ok(3u8), OnFailure::KeepSocket);
    match f.poll(ConnectProbe::Failed(err(ErrorKind::ConnectionRefused))) {
        Poll::Ready(Err(e)) => assert_eq!(e.kind, ErrorKind::ConnectionRefused),
        _ => panic!("expected the error"),
    }
    assert_eq!(f.stream(), Some(&3));
}

#[test]
fn tcp_connect_failure_ends_the_future() {
    let mut f = ConnectFuture::new(Ok(3u8), OnFailure::End);
    assert!(f.poll(ConnectProbe::NotWritable).is_pending());
    assert!(!f.is_terminated());
    match f.poll(ConnectProbe::Failed(err(ErrorKind::ConnectionRefused))) {
        Poll::Ready(Err(e)) => assert_eq!(e.kind, ErrorKind::ConnectionRefused),
        _ => panic!("expected the error"),
    }
    assert!(f.is_terminated());
    assert_eq!(f.stream(), None);
}

#[test]
fn probing_a_socket() {
    assert!(matches!(probe_write_ready::<u8>(Poll::Pending), ProbeStep::Done(ConnectProbe::NotWritable)));
    assert!(matches!(
        probe_write_ready::<u8>(Poll::Ready(Err(err(ErrorKind::BrokenPipe)))),
        ProbeStep::Done(ConnectProbe::Failed(IoError { kind: ErrorKind::BrokenPipe, .. }))
    ));
    assert!(matches!(probe_write_ready(Poll::Ready(Ok(2u8))), ProbeStep::TakeError));
    assert!(matches!(probe_take_error(Ok(None)), ConnectProbe::Connected));
    assert!(matches!(
        probe_take_error(Ok(Some(err(ErrorKind::ConnectionRefused)))),
        ConnectProbe::Failed(IoError { kind: ErrorKind::ConnectionRefused, .. })
    ));
    assert!(matches!(
        probe_take_error(Err(err(ErrorKind::Other))),
        ConnectProbe::Failed(IoError { kind: ErrorKind::Other, .. })
    ));
}

#[test]
fn connect_call_error_is_reported() {
    let mut f = ConnectFuture::<u8>::new(Err(err(ErrorKind::AddrNotAvailable)), OnFailure::KeepSocket);
    assert_eq!(f.stream(), None);
    match f.poll(ConnectProbe::Connected) {
        Poll::Ready(Err(e)) => assert_eq!(e.kind, ErrorKind::AddrNotAvailable),
        _ => panic!("expected the error"),
    }
}

#[test]
fn udp_send_whole_buffer() {
    let mut f = udp::SendDgram::new(1u8, vec![1u8, 2, 3], "peer");
    {
        let (sock, buf, addr) = f.parts().unwrap();
        assert_eq!(*sock, 1);
        assert_eq!(buf.len(), 3);
        assert_eq!(*addr, "peer");
        *sock = 2;
    }
    assert!(f.poll(Poll::Pending, 3).is_pending());
    match f.poll(Poll::Ready(Ok(3)), 3) {
        Poll::Ready(Ok((s, b))) => {
            assert_eq!(s, 2);
            assert_eq!(b, vec![1, 2, 3]);
        }
        _ => panic!("expected the socket and buffer"),
    }
    assert!(f.parts().is_none());
}

#[test]
fn udp_send_count_mismatch_fails() {
    let mut f = udp::SendDgram::new(1u8, vec![0u8; 4], ());
    for n in [2usize, 5] {
        match f.poll(Poll::Ready(Ok(n)), 4) {
            Poll::Ready(Err(e)) => {
                assert_eq!(e.kind, ErrorKind::Other);
                assert_eq!(e.message, "failed to send entire message in datagram");
            }
            _ => panic!("expected an error"),
        }
        assert!(f.parts().is_some());
    }
    match f.poll(Poll::Ready(Err(err(ErrorKind::BrokenPipe))), 4) {
        Poll::Ready(Err(e)) => assert_eq!(e.kind, ErrorKind::BrokenPipe),
        _ => panic!("expected the error"),
    }
    assert!(f.parts().is_some());
}

#[test]
fn udp_recv() {
    let mut f = udp::RecvDgram::new(5u8, vec![0u8; 8]);
    {
        let (_, buf) = f.parts().unwrap();
        buf[0] = 42;
    }
    assert!(f.poll::<&str>(Poll::Pending).is_pending());
    match f.poll(Poll::Ready(Ok((1usize, "from")))) {
        Poll::Ready(Ok((s, b, n, a))) => {
            assert_eq!((s, n, a), (5, 1, "from"));
            assert_eq!(b[0], 42);
        }
        _ => panic!("expected a datagram"),
    }
    assert!(f.parts().is_none());
}

#[test]
fn uds_send_short_write_fails() {
    let mut f = uds::SendDgram::new(1u8, vec![0u8; 4], "/tmp/sock");
    match f.poll(Poll::Ready(Ok(3)), 4) {
        Poll::Ready(Err(e)) => {
            assert_eq!(e.kind, ErrorKind::Other);
            assert_eq!(e.message, "Couldn't send whole buffer");
        }
        _ => panic!("expected an error"),
    }
    // a longer count is accepted
    match f.poll(Poll::Ready(Ok(5)), 4) {
        Poll::Ready(Ok((s, b))) => {
            assert_eq!(s, 1);
            assert_eq!(b.len(), 4);
        }
        _ => panic!("expected the socket and buffer"),
    }
    assert!(f.parts().is_none());
}

#[test]
fn uds_recv_peer_names() {
    assert_eq!(uds::peer_name(Some(Some("/tmp/a".to_string()))), "/tmp/a");
    assert_eq!(uds::peer_name(Some(None)), "");
    assert_eq!(uds::peer_name(None), "");
    let mut f = uds::RecvDgram::new(0u8, [0u8; 2]);
    assert!(f.parts().is_some());
    match f.poll(Poll::Ready(Ok((2usize, None)))) {
        Poll::Ready(Ok((_, _, n, peer))) => {
            assert_eq!(n, 2);
            assert_eq!(peer, "");
        }
        _ => panic!("expected a datagram"),
    }
    let mut g = uds::RecvDgram::new(0u8, [0u8; 2]);
    match g.poll(Poll::Ready(Ok((1usize, Some(Some("/run/x".to_string())))))) {
        Poll::Ready(Ok((_, _, _, peer))) => assert_eq!(peer, "/run/x"),
        _ => panic!("expected a datagram"),
    }
    let mut h = uds::RecvDgram::new(0u8, [0u8; 2]);
    assert!(matches!(h.poll(Poll::Ready(Err(err(ErrorKind::Other)))), Poll::Ready(Err(_))));
    assert!(h.parts().is_some());
}
