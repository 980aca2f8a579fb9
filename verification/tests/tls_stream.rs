use rest_core::tls_stream::{Action, Handshake, Operation, Resume, TlsStream};

const OPERATIONS: [Operation; 4] =
    [Operation::Read, Operation::Write, Operation::Flush, Operation::Shutdown];

#[test]
fn new_connection_is_handshaking() {
    let stream = TlsStream::new();
    assert!(!stream.is_streaming());
}

#[test]
fn read_and_write_drive_the_handshake() {
    let stream = TlsStream::new();
    assert_eq!(stream.begin(Operation::Read), Action::DriveHandshake);
    assert_eq!(stream.begin(Operation::Write), Action::DriveHandshake);
}

#[test]
fn flush_and_shutdown_succeed_before_the_handshake() {
    let stream = TlsStream::new();
    assert_eq!(stream.begin(Operation::Flush), Action::Succeed);
    assert_eq!(stream.begin(Operation::Shutdown), Action::Succeed);
}

#[test]
fn pending_handshake_keeps_the_operation_pending() {
    let mut stream = TlsStream::new();
    assert_eq!(stream.on_handshake(Handshake::<String>::Pending), Resume::Pending);
    assert!(!stream.is_streaming());
    assert_eq!(stream.begin(Operation::Read), Action::DriveHandshake);
}

#[test]
fn completed_handshake_forwards_the_operation() {
    let mut stream = TlsStream::new();
    assert_eq!(stream.on_handshake(Handshake::<String>::Pending), Resume::Pending);
    assert_eq!(stream.on_handshake(Handshake::<String>::Established), Resume::Forward);
    assert!(stream.is_streaming());
    for operation in OPERATIONS {
        assert_eq!(stream.begin(operation), Action::Forward);
    }
}

#[test]
fn failed_handshake_fails_the_operation() {
    let mut stream = TlsStream::new();
    let failed = Handshake::Failed("bad certificate".to_string());
    assert_eq!(stream.on_handshake(failed), Resume::Fail("bad certificate".to_string()));
    assert!(!stream.is_streaming());
}

#[test]
fn established_session_never_goes_back() {
    let mut stream = TlsStream::new();
    stream.on_handshake(Handshake::<String>::Established);
    assert_eq!(stream.on_handshake(Handshake::<String>::Pending), Resume::Forward);
    assert!(stream.is_streaming());
    assert_eq!(stream.on_handshake(Handshake::Failed("late".to_string())), Resume::Forward);
    assert!(stream.is_streaming());
    assert_eq!(stream.on_handshake(Handshake::<String>::Established), Resume::Forward);
    assert!(stream.is_streaming());
}

#[test]
fn slow_handshakes_do_not_hold_each_other() {
    let mut streams: Vec<TlsStream> = (0..64).map(|_| TlsStream::new()).collect();
    for stream in streams.iter_mut() {
        assert_eq!(stream.begin(Operation::Read), Action::DriveHandshake);
        assert_eq!(stream.on_handshake(Handshake::<String>::Pending), Resume::Pending);
    }
    for (i, stream) in streams.iter_mut().enumerate().rev() {
        if i % 2 == 0 {
            assert_eq!(stream.on_handshake(Handshake::<String>::Established), Resume::Forward);
        }
    }
    for (i, stream) in streams.iter().enumerate() {
        assert_eq!(stream.is_streaming(), i % 2 == 0);
    }
}
