use kharbranth::connection::{
    Connection, ConnectionError, ConnectionState, PingActor, PingEvent, PingStep, ReadActor,
    ReadEvent, WriteActor, WriteEvent, WriteStep,
};
use kharbranth::request::{client_request, request_or_error};
use kharbranth::wire::{CloseFrame, FrameHeader, OpCode, RawFrame, WireMessage};
use kharbranth::{Config, ConnectionMessage, Message};

fn create_test_config(name: &str, url: &str) -> Config {
    Config {
        name: name.to_string(),
        ping_duration: 10,
        ping_message: "ping".to_string(),
        ping_timeout: 15,
        url: url.to_string(),
        reconnect_timeout: 10,
    }
}

#[test]
fn config_creation_works() {
    let config = create_test_config("test", "wss://example.com");

    assert_eq!(config.name, "test");
    assert_eq!(config.url, "wss://example.com");
    assert_eq!(config.ping_duration, 10);
    assert_eq!(config.ping_timeout, 15);
    assert_eq!(config.reconnect_timeout, 10);

    let copy = config.clone();
    assert_eq!(copy.name, "test");
    assert_eq!(copy.ping_message, "ping");
}

#[test]
fn connection_message_variants_work() {
    let msg1 = ConnectionMessage::Message("test".to_string(), WireMessage::Text("hello".into()));
    let msg2 = ConnectionMessage::ReadError("test".to_string());
    let msg3 = ConnectionMessage::WriteError("test".to_string());
    let msg4 = ConnectionMessage::PongReceiveTimeoutError("test".to_string());

    match msg1 {
        ConnectionMessage::Message(name, _) => assert_eq!(name, "test"),
        _ => panic!("Expected Message variant"),
    }

    match msg2 {
        ConnectionMessage::ReadError(name) => assert_eq!(name, "test"),
        _ => panic!("Expected ReadError variant"),
    }

    match msg3 {
        ConnectionMessage::WriteError(name) => assert_eq!(name, "test"),
        _ => panic!("Expected WriteError variant"),
    }

    match msg4 {
        ConnectionMessage::PongReceiveTimeoutError(name) => assert_eq!(name, "test"),
        _ => panic!("Expected PongReceiveTimeoutError variant"),
    }
}

fn raw_frame(payload: Vec<u8>) -> RawFrame {
    RawFrame {
        header: FrameHeader {
            is_final: true,
            rsv1: false,
            rsv2: true,
            rsv3: false,
            opcode: OpCode::Binary,
            mask: None,
        },
        payload,
    }
}

fn shown(message: &Option<Message>) -> String {
    format!("{:?}", message)
}

fn expected(message: Message) -> String {
    format!("{:?}", Some(message))
}

#[test]
fn read_actor_publishes_what_it_reads() {
    let mut actor = ReadActor::new("c".to_string());
    let name = || "c".to_string();
    let cases = vec![
        (WireMessage::Ping(b"ab".to_vec()), Message::PingMessage(name(), "ab".into()), 2),
        (WireMessage::Pong(vec![0x61, 0xff]), Message::PongMessage(name(), "a\u{fffd}".into()), 4),
        (WireMessage::Text("h\u{e9}".into()), Message::TextMessage(name(), "h\u{e9}".into()), 7),
        (WireMessage::Binary(vec![1, 2]), Message::BinaryMessage(name(), vec![1, 2]), 9),
        (WireMessage::Close(None), Message::CloseMessage(name(), None), 9),
        (
            WireMessage::Close(Some(CloseFrame { code: 1001, reason: "bye".into() })),
            Message::CloseMessage(name(), Some("bye".into())),
            12,
        ),
        (
            WireMessage::Frame(raw_frame(vec![0; 18])),
            Message::FrameMessage(name(), "Raw frame received".into()),
            32,
        ),
    ];
    for (frame, message, bytes) in cases {
        let step = actor.step(ReadEvent::Received(frame));
        assert_eq!(shown(&step.publish), expected(message));
        assert!(!step.stop);
        assert_eq!(actor.bytes_recv, bytes);
    }
}

#[test]
fn read_actor_stops_on_failure_end_and_cancellation() {
    let mut actor = ReadActor::new("c".to_string());
    let step = actor.step(ReadEvent::Failed("broken".into()));
    assert_eq!(shown(&step.publish), expected(Message::ReadError("c".into(), "broken".into())));
    assert!(step.stop);
    let step = actor.step(ReadEvent::Ended);
    assert_eq!(shown(&step.publish), expected(Message::ReadError("c".into(), "None".into())));
    assert!(step.stop);
    let step = actor.step(ReadEvent::Cancelled);
    assert!(step.publish.is_none());
    assert!(step.stop);
    assert_eq!(actor.bytes_recv, 0);
}

#[test]
fn write_actor_writes_what_is_meant_for_the_wire() {
    let actor = WriteActor::new("c".to_string());
    let n = || "c".to_string();
    let cases = vec![
        (Message::PingMessage(n(), "\u{e9}".into()), WireMessage::Ping(vec![0xc3, 0xa9])),
        (Message::PongMessage(n(), "p".into()), WireMessage::Pong(b"p".to_vec())),
        (Message::TextMessage(n(), "t".into()), WireMessage::Text("t".into())),
        (Message::BinaryMessage(n(), vec![7]), WireMessage::Binary(vec![7])),
        (Message::CloseMessage(n(), None), WireMessage::Close(None)),
        (
            Message::CloseMessage(n(), Some("done".into())),
            WireMessage::Close(Some(CloseFrame { code: 1000, reason: "done".into() })),
        ),
    ];
    for (message, frame) in cases {
        match actor.step(WriteEvent::Received(message)) {
            WriteStep::Write(written) => {
                assert_eq!(format!("{:?}", written), format!("{:?}", frame))
            }
            _ => panic!("expected a write"),
        }
    }
}

#[test]
fn write_actor_skips_news_and_errors() {
    let actor = WriteActor::new("c".to_string());
    let n = || "c".to_string();
    for message in vec![
        Message::FrameMessage(n(), "f".into()),
        Message::ReadError(n(), "e".into()),
        Message::WriteError(n(), "e".into()),
        Message::PongReceiveTimeoutError(n()),
        Message::SuccessfulHandshake(n()),
        Message::FailedHandshake(n(), 3),
        Message::ConnectionStarting(n()),
    ] {
        assert!(actor.handle_message(message.clone()).is_none());
        assert!(matches!(actor.step(WriteEvent::Received(message)), WriteStep::Skip));
    }
    assert!(matches!(actor.step(WriteEvent::ReceiveFailed), WriteStep::Stop));
    assert!(matches!(actor.step(WriteEvent::Cancelled), WriteStep::Stop));
    let failed = actor.write_failed("gone".into());
    assert_eq!(
        format!("{:?}", failed),
        format!("{:?}", Message::WriteError("c".into(), "gone".into()))
    );
}

#[test]
fn what_is_written_is_read_back() {
    let writer = WriteActor::new("c".to_string());
    let mut reader = ReadActor::new("c".to_string());
    for message in vec![
        Message::PingMessage("c".into(), "{\"method\":\"ping\"} \u{1f600}".into()),
        Message::PongMessage("c".into(), "".into()),
        Message::TextMessage("c".into(), "text".into()),
        Message::BinaryMessage("c".into(), vec![0, 255]),
        Message::CloseMessage("c".into(), Some("why".into())),
    ] {
        let frame = writer.handle_message(message.clone()).unwrap();
        let step = reader.step(ReadEvent::Received(frame));
        assert_eq!(shown(&step.publish), expected(message));
    }
}

#[test]
fn what_is_read_is_written_back() {
    let reader = ReadActor::new("c".to_string());
    let writer = WriteActor::new("d".to_string());
    for frame in vec![
        WireMessage::Ping("\u{e9}".as_bytes().to_vec()),
        WireMessage::Binary(vec![0xff]),
        WireMessage::Close(Some(CloseFrame { code: 1000, reason: "r".into() })),
    ] {
        let back = writer.handle_message(reader.message(frame.clone())).unwrap();
        assert_eq!(format!("{:?}", back), format!("{:?}", frame));
    }
    assert!(writer.handle_message(reader.message(WireMessage::Frame(raw_frame(vec![1])))).is_none());
}

#[test]
fn ping_actor_sends_the_configured_text() {
    let mut actor = PingActor::new("c".to_string(), create_test_config("c", "ws://h"));
    match actor.step(PingEvent::PingDue) {
        PingStep::Send(Message::PingMessage(name, text)) => {
            assert_eq!(name, "c");
            assert_eq!(text, "ping");
        }
        _ => panic!("expected a ping"),
    }
    assert!(matches!(actor.step(PingEvent::ReceiveFailed), PingStep::Idle));
    assert!(matches!(actor.step(PingEvent::Cancelled), PingStep::Stop));
}

#[test]
fn ping_actor_reports_an_overdue_pong() {
    let mut actor = PingActor::new("c".to_string(), create_test_config("c", "ws://h"));
    // No pong yet: nothing is overdue.
    assert!(matches!(actor.step_at(PingEvent::TimeoutDue, 1_000_000), PingStep::Idle));
    let foreign = Message::PongMessage("other".into(), "ping".into());
    assert!(matches!(actor.step_at(PingEvent::Received(foreign), 90), PingStep::Idle));
    assert_eq!(actor.last_pong_time, None);
    let own = Message::PongMessage("c".into(), "whatever".into());
    assert!(matches!(actor.step_at(PingEvent::Received(own), 100), PingStep::Idle));
    assert_eq!(actor.last_pong_time, Some(100));
    assert!(matches!(actor.step_at(PingEvent::TimeoutDue, 115), PingStep::Idle));
    match actor.step_at(PingEvent::TimeoutDue, 116) {
        PingStep::Send(Message::PongReceiveTimeoutError(name)) => assert_eq!(name, "c"),
        _ => panic!("expected an error"),
    }
}

#[test]
fn ping_actor_reads_a_timeout_as_signed() {
    let mut config = create_test_config("c", "ws://h");
    config.ping_timeout = u64::MAX;
    let mut actor = PingActor::new("c".to_string(), config);
    actor.last_pong_time = Some(100);
    // The time-out is minus one.
    assert!(matches!(actor.step_at(PingEvent::TimeoutDue, 100), PingStep::Send(_)));
    assert!(matches!(actor.step_at(PingEvent::TimeoutDue, 99), PingStep::Idle));
}

#[test]
fn ping_actor_dates_pongs_by_the_clock() {
    let mut actor = PingActor::new("c".to_string(), create_test_config("c", "ws://h"));
    let own = Message::PongMessage("c".into(), "".into());
    let before = chrono::Utc::now().timestamp();
    actor.step(PingEvent::Received(own));
    let seen = actor.last_pong_time.unwrap();
    assert!(before <= seen && seen <= chrono::Utc::now().timestamp());
    assert!(matches!(actor.step(PingEvent::TimeoutDue), PingStep::Idle));
    actor.last_pong_time = Some(0);
    assert!(matches!(actor.step(PingEvent::TimeoutDue), PingStep::Send(_)));
}

#[test]
fn errors_read_as_words() {
    assert_eq!(
        ConnectionError::ConnectionInitFailed("a\"b".into()).to_string(),
        "Connection initialization failed: \"a\\\"b\""
    );
    assert_eq!(ConnectionError::PingFailed.to_string(), "Ping Failed");
    assert_eq!(ConnectionError::CloseFrameReceived.to_string(), "Close Frame Received");
    assert_eq!(ConnectionError::PongReceiveTimeout.to_string(), "Timed out waiting for Pong");
}

#[test]
fn requests_are_made_of_valid_urls() {
    let request = client_request(&"wss://example.com/ws".to_string()).unwrap();
    assert_eq!(request.uri().host(), Some("example.com"));
    match client_request(&"not a url".to_string()) {
        Err(ConnectionError::ConnectionInitFailed(text)) => {
            assert!(text.starts_with("Invalid URL: "));
            assert!(text.len() > "Invalid URL: ".len());
        }
        _ => panic!("expected an error"),
    }
    match client_request(&"/just/a/path".to_string()) {
        Err(ConnectionError::ConnectionInitFailed(text)) => {
            assert_eq!(text, "Invalid URL: URL error: No host name in the URL")
        }
        _ => panic!("expected an error"),
    }
    assert_eq!(request_or_error::<u8>(Ok(3)).unwrap(), 3);
    match request_or_error::<u8>(Err("no".into())) {
        Err(ConnectionError::ConnectionInitFailed(text)) => assert_eq!(text, "Invalid URL: no"),
        _ => panic!("expected an error"),
    }
}

#[test]
fn a_connection_goes_through_its_states() {
    let mut conn: Connection<u8, u16> = Connection::new("c", create_test_config("c", "ws://h"));
    assert_eq!(conn.connection_state, ConnectionState::Inactive);
    assert!(conn.write().is_none());
    let (request, replaced) = conn.try_connection();
    assert!(request.is_ok() && replaced.is_none());
    assert_eq!(conn.connection_state, ConnectionState::Connecting);
    match conn.finish_connection(Err("refused".into())) {
        Err(ConnectionError::ConnectionInitFailed(text)) => assert_eq!(text, "refused"),
        _ => panic!("expected an error"),
    }
    assert_eq!(conn.connection_state, ConnectionState::Connecting);
    let opened = conn.finish_connection(Ok((1, 2))).unwrap();
    assert_eq!(opened.writer.name, "c");
    assert_eq!(opened.reader.name, "c");
    assert_eq!(opened.ping.name, "c");
    assert_eq!(opened.ping.config.ping_timeout, 15);
    assert!(opened.replaced.is_none());
    assert_eq!(conn.connection_state, ConnectionState::Active);
    assert_eq!(conn.write(), Some(&1));
    let again = conn.finish_connection(Ok((3, 4))).unwrap();
    assert_eq!(again.replaced.unwrap().cancel_token, 2);
    let link = conn.shutdown().unwrap();
    assert_eq!((link.writer.sender, link.cancel_token), (3, 4));
    assert_eq!(conn.connection_state, ConnectionState::Inactive);
    assert!(conn.write().is_none());
}

#[test]
fn a_refused_url_leaves_the_connection_connecting() {
    let mut conn: Connection<u8, u16> = Connection::new("c", create_test_config("c", "no url"));
    let (request, _) = conn.try_connection();
    assert!(request.is_err());
    assert_eq!(conn.connection_state, ConnectionState::Connecting);
}
