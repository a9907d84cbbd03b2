use s9_websocket::{classify_read_failure, is_connection_closed_error, LoopKind, ReadFailure, ReadVerdict};

#[test]
fn closed_texts_are_recognised() {
    assert!(is_connection_closed_error("Connection closed"));
    assert!(is_connection_closed_error("closed"));
    assert!(is_connection_closed_error("socket was closed by peer"));
    assert!(is_connection_closed_error("xclosedx"));
    assert!(!is_connection_closed_error(""));
    assert!(!is_connection_closed_error("close"));
    assert!(!is_connection_closed_error("AlreadyClosed"));
    assert!(!is_connection_closed_error("Broken pipe"));
    assert!(!is_connection_closed_error("clos ed"));
    assert!(is_connection_closed_error("ünïcode closed"));
}

#[test]
fn no_data_is_idle_where_expected() {
    assert_eq!(
        classify_read_failure(ReadFailure::WouldBlock("would block".to_string()), true, LoopKind::NonBlocking),
        ReadVerdict::NoData
    );
    assert_eq!(
        classify_read_failure(ReadFailure::TimedOut("timed out".to_string()), true, LoopKind::NonBlocking),
        ReadVerdict::NoData
    );
}

#[test]
fn no_data_is_fatal_where_not_expected() {
    assert_eq!(
        classify_read_failure(ReadFailure::WouldBlock("Resource temporarily unavailable".to_string()), false, LoopKind::NonBlocking),
        ReadVerdict::Fatal("Failed to read from socket: Resource temporarily unavailable".to_string())
    );
    assert_eq!(
        classify_read_failure(ReadFailure::TimedOut("timed out".to_string()), false, LoopKind::NonBlocking),
        ReadVerdict::Fatal("Failed to read from socket: timed out".to_string())
    );
}

#[test]
fn ended_connection_is_a_normal_closure() {
    for expected in [true, false] {
        assert_eq!(
            classify_read_failure(ReadFailure::ConnectionClosed, expected, LoopKind::NonBlocking),
            ReadVerdict::Closed("Connection closed normally".to_string())
        );
    }
}

#[test]
fn other_failures_are_fatal() {
    assert_eq!(
        classify_read_failure(ReadFailure::Other("Protocol(ResetWithoutClosingHandshake)".to_string()), true, LoopKind::NonBlocking),
        ReadVerdict::Fatal("Failed to read from socket: Protocol(ResetWithoutClosingHandshake)".to_string())
    );
    assert_eq!(
        classify_read_failure(ReadFailure::Other("stream closed".to_string()), true, LoopKind::NonBlocking),
        ReadVerdict::Fatal("Failed to read from socket: stream closed".to_string())
    );
    assert_eq!(
        classify_read_failure(ReadFailure::WouldBlock("closed".to_string()), false, LoopKind::NonBlocking),
        ReadVerdict::Fatal("Failed to read from socket: closed".to_string())
    );
}

#[test]
fn blocking_wording() {
    assert_eq!(
        classify_read_failure(ReadFailure::ConnectionClosed, false, LoopKind::Blocking),
        ReadVerdict::Closed("Connection closed".to_string())
    );
    assert_eq!(
        classify_read_failure(ReadFailure::TimedOut("IO error: timed out".to_string()), false, LoopKind::Blocking),
        ReadVerdict::Fatal("Error reading message: IO error: timed out".to_string())
    );
    assert_eq!(
        classify_read_failure(ReadFailure::TimedOut("IO error: timed out".to_string()), true, LoopKind::Blocking),
        ReadVerdict::NoData
    );
    assert_eq!(
        classify_read_failure(ReadFailure::Other("Attack attempt detected".to_string()), true, LoopKind::Blocking),
        ReadVerdict::Fatal("Error reading message: Attack attempt detected".to_string())
    );
}
