use s9_websocket::{
    BlockingOptions, CommandStep, LoopKind, ControlMessage, EventLoop, FrameKind, Inbound, Interval, LoopPhase,
    NonBlockingOptions, OutboundFrame, ReadFailure, WebSocketEvent,
};

fn running_loop(no_data_expected: bool) -> EventLoop {
    let mut l = EventLoop::new(LoopKind::NonBlocking, no_data_expected, None);
    assert_eq!(l.activate(), WebSocketEvent::Activated);
    l
}

#[test]
fn activated_once_and_first() {
    let mut l = EventLoop::for_non_blocking(&NonBlockingOptions::new());
    assert_eq!(l.phase(), LoopPhase::Ready);
    let mut delivered = vec![l.activate()];
    assert!(l.is_running());
    for text in ["a", "b"] {
        delivered.extend(l.start_iteration());
        delivered.extend(l.process_read(Ok(Inbound::Text(text.as_bytes().to_vec()))).events);
    }
    delivered.extend(l.process_read(Ok(Inbound::Close(None))).events);
    assert_eq!(delivered[0], WebSocketEvent::Activated);
    assert_eq!(delivered.iter().filter(|e| **e == WebSocketEvent::Activated).count(), 1);
    assert_eq!(
        delivered,
        vec![
            WebSocketEvent::Activated,
            WebSocketEvent::TextMessage(b"a".to_vec()),
            WebSocketEvent::TextMessage(b"b".to_vec()),
            WebSocketEvent::ConnectionClosed(None),
            WebSocketEvent::Quit,
        ]
    );
}

#[test]
fn close_frame_gives_closed_then_quit() {
    let mut l = running_loop(true);
    let step = l.process_read(Ok(Inbound::Close(Some("1000 (Normal): bye".to_string()))));
    assert!(!step.idle);
    assert_eq!(
        step.events,
        vec![WebSocketEvent::ConnectionClosed(Some("1000 (Normal): bye".to_string())), WebSocketEvent::Quit]
    );
    assert_eq!(l.phase(), LoopPhase::Finished);
    assert_eq!(l.pause(), None);
}

#[test]
fn ended_connection_gives_closed_then_quit() {
    let mut l = running_loop(false);
    let step = l.process_read(Err(ReadFailure::ConnectionClosed));
    assert_eq!(
        step.events,
        vec![WebSocketEvent::ConnectionClosed(Some("Connection closed normally".to_string())), WebSocketEvent::Quit]
    );
    assert!(!l.is_running());
}

#[test]
fn fatal_read_gives_error_then_quit() {
    let mut l = running_loop(true);
    let step = l.process_read(Err(ReadFailure::Other("Protocol(ResetWithoutClosingHandshake)".to_string())));
    assert_eq!(
        step.events,
        vec![
            WebSocketEvent::Error("Failed to read from socket: Protocol(ResetWithoutClosingHandshake)".to_string()),
            WebSocketEvent::Quit
        ]
    );
    assert!(!l.is_running());
}

#[test]
fn send_text_round_trip() {
    let mut l = running_loop(true);
    let step = l.apply_command(ControlMessage::SendText("x".to_string()), true).step;
    assert_eq!(step, CommandStep::Send(OutboundFrame::Text("x".to_string())));
    let echoed = l.process_read(Ok(Inbound::Text("x".as_bytes().to_vec())));
    assert_eq!(echoed.events, vec![WebSocketEvent::TextMessage(b"x".to_vec())]);
    assert!(!echoed.idle);
    assert!(l.is_running());
}

#[test]
fn data_commands_become_one_frame_each() {
    let mut l = running_loop(true);
    assert_eq!(
        l.apply_command(ControlMessage::SendBinary(vec![1, 2, 3]), true).step,
        CommandStep::Send(OutboundFrame::Binary(vec![1, 2, 3]))
    );
    assert_eq!(
        l.apply_command(ControlMessage::SendPing(vec![]), false).step,
        CommandStep::Send(OutboundFrame::Ping(vec![]))
    );
    assert_eq!(
        l.apply_command(ControlMessage::SendPong(vec![9]), true).step,
        CommandStep::Send(OutboundFrame::Pong(vec![9]))
    );
    assert_eq!(OutboundFrame::Pong(vec![9]).kind(), FrameKind::Pong);
    assert_eq!(OutboundFrame::Text("t".to_string()).kind(), FrameKind::Text);
}

#[test]
fn inbound_messages_dispatch_one_event_each() {
    let mut l = running_loop(true);
    assert_eq!(l.process_read(Ok(Inbound::Binary(vec![7]))).events, vec![WebSocketEvent::BinaryMessage(vec![7])]);
    assert_eq!(l.process_read(Ok(Inbound::Ping(vec![1]))).events, vec![WebSocketEvent::Ping(vec![1])]);
    assert_eq!(l.process_read(Ok(Inbound::Pong(vec![2]))).events, vec![WebSocketEvent::Pong(vec![2])]);
    let frame = l.process_read(Ok(Inbound::Frame));
    assert!(frame.events.is_empty());
    assert!(!frame.idle);
    assert!(l.is_running());
}

#[test]
fn second_close_is_a_no_op() {
    let mut l = running_loop(true);
    assert_eq!(l.apply_command(ControlMessage::Close(), true).step, CommandStep::SendClose);
    assert_eq!(l.apply_command(ControlMessage::Close(), true).step, CommandStep::Skip);
    assert!(!l.request_close(true));
    assert!(l.is_running());
}

#[test]
fn close_on_unwritable_socket_sends_nothing() {
    let mut l = running_loop(true);
    assert!(!l.request_close(false));
    assert!(!l.request_close(true));
}

#[test]
fn force_quit_command_ends_loop_with_quit() {
    let mut l = running_loop(true);
    assert_eq!(l.apply_command(ControlMessage::SendText("pending".to_string()), true).step,
        CommandStep::Send(OutboundFrame::Text("pending".to_string())));
    let applied = l.apply_command(ControlMessage::ForceQuit(), true);
    assert_eq!(applied.step, CommandStep::Stop);
    assert_eq!(applied.events, vec![WebSocketEvent::Quit]);
    assert_eq!(l.phase(), LoopPhase::Finished);
    assert_eq!(l.pause(), None);
}

#[test]
fn force_quit_request_ends_next_iteration() {
    let mut l = EventLoop::new(LoopKind::NonBlocking, true, Some(Interval::from_millis(5)));
    l.activate();
    assert!(l.start_iteration().is_empty());
    assert_eq!(l.apply_command(ControlMessage::Close(), true).step, CommandStep::SendClose);
    l.request_quit();
    assert!(l.is_running());
    assert_eq!(l.start_iteration(), vec![WebSocketEvent::Quit]);
    assert!(!l.is_running());
}

#[test]
fn non_blocking_without_data_is_idle_every_iteration() {
    let options = NonBlockingOptions::new().spin_wait_duration(None).unwrap();
    let mut l = EventLoop::for_non_blocking(&options);
    l.activate();
    for _ in 0..100 {
        assert!(l.start_iteration().is_empty());
        let step = l.process_read(Err(ReadFailure::WouldBlock("Resource temporarily unavailable".to_string())));
        assert!(step.idle);
        assert!(step.events.is_empty());
        assert_eq!(l.pause(), None);
    }
    assert!(l.is_running());
}

#[test]
fn blocking_with_read_timeout_idles_until_quit() {
    let options = BlockingOptions::new().read_timeout(Some(Interval::from_millis(100))).unwrap();
    let mut l = EventLoop::for_blocking(&options);
    l.activate();
    for _ in 0..50 {
        assert!(l.start_iteration().is_empty());
        let step = l.process_read(Err(ReadFailure::TimedOut("timed out".to_string())));
        assert!(step.idle);
        assert!(step.events.is_empty());
        assert!(l.is_running());
    }
    l.request_quit();
    assert_eq!(l.start_iteration(), vec![WebSocketEvent::Quit]);
    assert!(!l.is_running());
}

#[test]
fn blocking_without_read_timeout_fails_on_timeout() {
    let mut l = EventLoop::for_blocking(&BlockingOptions::new());
    assert_eq!(l.kind(), LoopKind::Blocking);
    l.activate();
    let step = l.process_read(Err(ReadFailure::WouldBlock(
        "IO error: Resource temporarily unavailable (os error 11)".to_string(),
    )));
    assert!(!step.idle);
    assert_eq!(
        step.events,
        vec![
            WebSocketEvent::Error(
                "Error reading message: IO error: Resource temporarily unavailable (os error 11)".to_string()
            ),
            WebSocketEvent::Quit
        ]
    );
    assert!(!l.is_running());
}

#[test]
fn failed_send_is_reported_and_loop_goes_on() {
    let mut l = running_loop(true);
    assert_eq!(
        l.send_failed(FrameKind::Text, "IO error: Broken pipe".to_string()),
        WebSocketEvent::Error("Error sending text: IO error: Broken pipe".to_string())
    );
    assert_eq!(
        l.send_failed(FrameKind::Binary, "b".to_string()),
        WebSocketEvent::Error("Error sending binary: b".to_string())
    );
    assert_eq!(l.send_failed(FrameKind::Ping, "p".to_string()), WebSocketEvent::Error("Error sending ping: p".to_string()));
    assert_eq!(l.send_failed(FrameKind::Pong, "q".to_string()), WebSocketEvent::Error("Error sending pong: q".to_string()));
    assert!(l.is_running());
}

#[test]
fn idle_wait_follows_options() {
    let options = NonBlockingOptions::new().spin_wait_duration(Some(Interval::from_millis(10))).unwrap();
    let mut l = EventLoop::for_non_blocking(&options);
    assert_eq!(l.pause(), None);
    l.activate();
    assert_eq!(l.pause(), Some(Interval::from_millis(10)));
    l.delivery_failed();
    assert_eq!(l.phase(), LoopPhase::Finished);
    assert_eq!(l.pause(), None);
}

#[test]
fn failed_delivery_leaves_ended_or_unstarted_loops_alone() {
    let mut l = EventLoop::new(LoopKind::NonBlocking, true, None);
    l.delivery_failed();
    assert_eq!(l.phase(), LoopPhase::Ready);
    l.activate();
    assert_eq!(l.process_read(Ok(Inbound::Close(None))).events.len(), 2);
    l.delivery_failed();
    assert_eq!(l.phase(), LoopPhase::Finished);
}

#[test]
fn failure_text_mentioning_closed_is_still_an_error() {
    for expected in [true, false] {
        let mut l = running_loop(expected);
        let step = l.process_read(Err(ReadFailure::Other("closed".to_string())));
        assert_eq!(
            step.events,
            vec![WebSocketEvent::Error("Failed to read from socket: closed".to_string()), WebSocketEvent::Quit]
        );
        assert!(!l.is_running());
    }
    let mut l = EventLoop::for_blocking(&BlockingOptions::new());
    l.activate();
    let step = l.process_read(Err(ReadFailure::TimedOut("connection closed".to_string())));
    assert_eq!(
        step.events,
        vec![WebSocketEvent::Error("Error reading message: connection closed".to_string()), WebSocketEvent::Quit]
    );
}

#[test]
fn data_commands_deliver_no_event() {
    let mut l = running_loop(true);
    assert!(l.apply_command(ControlMessage::SendText("a".to_string()), true).events.is_empty());
    assert!(l.apply_command(ControlMessage::Close(), true).events.is_empty());
    assert!(l.is_running());
}

#[test]
fn close_request_keeps_quit_flag_and_loop() {
    let mut l = running_loop(true);
    assert!(l.request_close(true));
    assert!(!l.request_close(true));
    assert!(l.start_iteration().is_empty());
    assert!(l.is_running());
}

#[test]
fn blocking_loop_reports_in_its_own_wording() {
    let mut l = EventLoop::for_blocking(&BlockingOptions::new());
    l.activate();
    let step = l.process_read(Err(ReadFailure::ConnectionClosed));
    assert_eq!(
        step.events,
        vec![WebSocketEvent::ConnectionClosed(Some("Connection closed".to_string())), WebSocketEvent::Quit]
    );
    let mut l = EventLoop::for_blocking(&BlockingOptions::new().read_timeout(Some(Interval::from_millis(100))).unwrap());
    l.activate();
    let step = l.process_read(Err(ReadFailure::Other("WebSocket protocol error: Connection reset without closing handshake".to_string())));
    assert_eq!(
        step.events,
        vec![
            WebSocketEvent::Error(
                "Error reading message: WebSocket protocol error: Connection reset without closing handshake".to_string()
            ),
            WebSocketEvent::Quit
        ]
    );
}

#[test]
fn non_blocking_loop_reports_in_its_own_wording() {
    let mut l = EventLoop::for_non_blocking(&NonBlockingOptions::new());
    assert_eq!(l.kind(), LoopKind::NonBlocking);
    l.activate();
    let step = l.process_read(Err(ReadFailure::ConnectionClosed));
    assert_eq!(
        step.events,
        vec![WebSocketEvent::ConnectionClosed(Some("Connection closed normally".to_string())), WebSocketEvent::Quit]
    );
}
