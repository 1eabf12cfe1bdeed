use kharbranth::connection::{ReadActor, WriteActor};
use kharbranth::manager::{
    back_off_secs, reconnect_target, AttemptOutcome, Connector, ManagerError,
};
use kharbranth::wire::WireMessage;
use kharbranth::{Config, Manager, Message};

fn create_test_config(name: &str, url: &str) -> Config {
    Config {
        name: name.to_string(),
        ping_duration: 10,
        ping_message: "ping".to_string(),
        ping_timeout: 15,
        url: url.to_string(),
        reconnect_timeout: 10,
    }
}

fn open_manager() -> Manager<u8, u16> {
    let mut manager = Manager::new();
    manager.new_conn("a", create_test_config("a", "ws://a"));
    manager.new_conn("b", create_test_config("b", "ws://b"));
    assert!(manager.begin_attempt("a").unwrap().0.is_ok());
    assert!(manager.finish_attempt("a", Ok((1, 10))).unwrap().is_ok());
    manager
}

fn note() -> Message {
    Message::TextMessage("any".into(), "note".into())
}

fn text(message: &Message) -> String {
    format!("{:?}", message)
}

#[test]
fn manager_creates_connections() {
    let mut manager: Manager<u8, u16> = Manager::new();
    let config = create_test_config("test", "wss://echo.websocket.org");

    let starting = manager.new_conn("test", config);
    assert!(starting.start_loops);
    assert_eq!(text(&starting.publish), text(&Message::ConnectionStarting("test".into())));
    assert_eq!(starting.connector.name, "test");
    assert_eq!(starting.connector.attempt, 0);
    // Not open yet, so there is nothing to close.
    assert!(matches!(
        manager.close_conn("test"),
        Err(ManagerError::ConnectionInactive(name)) if name == "test"
    ));
}

#[test]
fn manager_handles_write_to_nonexistent_connection() {
    let manager: Manager<u8, u16> = Manager::new();

    let message = Message::TextMessage("nonexistent".to_string(), "test".into());
    match manager.write("nonexistent", message) {
        Err(ManagerError::ConnectionUnknown(name)) => assert_eq!(name, "nonexistent"),
        _ => panic!("expected an error"),
    }
}

#[test]
fn manager_close_conn_works() {
    let mut manager: Manager<u8, u16> = Manager::new();

    match manager.close_conn("nonexistent") {
        Err(error) => assert_eq!(error.to_string(), "Connection Unknown: \"nonexistent\""),
        _ => panic!("expected an error"),
    }
}

#[test]
fn manager_reconnect_nonexistent_connection() {
    let mut manager: Manager<u8, u16> = Manager::new();

    let result = manager.reconnect("nonexistent");
    assert!(result.is_err());

    let error_msg = result.unwrap_err().to_string();
    assert!(error_msg.contains("Connection 'nonexistent' not found for reconnect"));
}

#[test]
fn manager_errors_read_as_words() {
    let unknown = ManagerError::ConnectionUnknown("a\"b".into());
    assert_eq!(unknown.to_string(), "Connection Unknown: \"a\\\"b\"");
    assert_eq!(unknown.to_string_with("<x>"), "Connection Unknown: <x>");
    let inactive = ManagerError::ConnectionInactive("c".into());
    assert_eq!(inactive.to_string(), "Connection Inactive: \"c\"");
    let restarting = ManagerError::ConnectionRestarting("c".into());
    assert_eq!(restarting.to_string(), "Connection Restarting: \"c\"");
}

#[test]
fn loops_are_started_once() {
    let mut manager: Manager<u8, u16> = Manager::new();
    assert!(manager.ensure_loops_started());
    assert!(!manager.ensure_loops_started());
    assert!(!manager.new_conn("a", create_test_config("a", "ws://a")).start_loops);
}

#[test]
fn writes_reach_the_connection_of_that_name() {
    let mut manager = open_manager();
    let hello = Message::TextMessage("a".into(), "hello".into());
    let delivery = manager.write("a", hello.clone()).unwrap();
    assert_eq!(*delivery.writer, 1);
    assert_eq!(text(&delivery.message), text(&hello));
    assert!(matches!(manager.write("b", note()), Err(ManagerError::ConnectionInactive(_))));
    manager.begin_attempt("b");
    manager.finish_attempt("b", Ok((2, 20)));
    assert_eq!(*manager.write("b", note()).unwrap().writer, 2);
    assert_eq!(*manager.write("a", note()).unwrap().writer, 1);
}

#[test]
fn an_existing_connection_keeps_its_settings() {
    let mut manager = open_manager();
    let mut other = create_test_config("a", "ws://elsewhere");
    other.reconnect_timeout = 99;
    let starting = manager.new_conn("a", other);
    assert!(!starting.start_loops);
    let reconnecting = manager.reconnect("a").unwrap();
    assert_eq!(reconnecting.delay_secs, 10);
    assert_eq!(reconnecting.config.url, "ws://a");
}

#[test]
fn closing_gives_up_one_connection() {
    let mut manager = open_manager();
    manager.begin_attempt("b");
    manager.finish_attempt("b", Ok((2, 20)));
    let closing = manager.close_conn("a").unwrap();
    assert_eq!(text(&closing.message), text(&Message::CloseMessage("a".into(), None)));
    assert_eq!((closing.link.writer.sender, closing.link.cancel_token), (1, 10));
    assert!(matches!(manager.write("a", note()), Err(ManagerError::ConnectionInactive(_))));
    assert!(matches!(manager.close_conn("a"), Err(ManagerError::ConnectionInactive(_))));
    assert_eq!(
        manager.reconnect("a").unwrap_err().to_string(),
        "Connection Inactive: \"a\""
    );
    assert_eq!(*manager.write("b", note()).unwrap().writer, 2);
}

#[test]
fn reconnecting_closes_and_waits() {
    let mut manager = open_manager();
    let reconnecting = manager.reconnect("a").unwrap();
    assert_eq!(
        text(&reconnecting.closing.message),
        text(&Message::CloseMessage("a".into(), None))
    );
    assert_eq!(reconnecting.closing.link.cancel_token, 10);
    assert_eq!(reconnecting.delay_secs, 10);
    assert_eq!(reconnecting.config.name, "a");
}

#[test]
fn a_connection_that_is_being_opened_is_not_reconnected() {
    let mut manager = open_manager();
    let (request, replaced) = manager.begin_attempt("a").unwrap();
    assert!(request.is_ok());
    assert_eq!(replaced.unwrap().cancel_token, 10);
    assert_eq!(
        manager.reconnect("a").unwrap_err().to_string(),
        "Connection Restarting: \"a\""
    );
    assert!(manager.finish_attempt("a", Err("refused".into())).unwrap().is_err());
    assert!(matches!(manager.write("a", note()), Err(ManagerError::ConnectionInactive(_))));
    assert_eq!(manager.reconnect("a").unwrap_err().to_string(), "Connection Restarting: \"a\"");
}

#[test]
fn attempts_on_unknown_connections_come_to_nothing() {
    let mut manager = open_manager();
    assert!(manager.begin_attempt("c").is_none());
    assert!(manager.finish_attempt("c", Ok((3, 30))).is_none());
}

#[test]
fn pauses_double_up_to_a_minute() {
    let pauses: Vec<u64> = (0..9).map(back_off_secs).collect();
    assert_eq!(pauses, vec![1, 2, 4, 8, 16, 32, 60, 60, 60]);
    assert_eq!(back_off_secs(i32::MAX), 60);
    assert_eq!(back_off_secs(-1), 0);
    for attempt in 0..40 {
        let formula = (1.0 * 2.0_f64.powi(attempt).min(60.0)) as u64;
        assert_eq!(back_off_secs(attempt), formula);
    }
}

#[test]
fn a_connector_tries_until_it_succeeds() {
    let mut connector = Connector { name: "a".to_string(), attempt: 0 };
    for attempt in 0..3 {
        let step = connector.step(AttemptOutcome::Failed);
        assert_eq!(
            text(&step.publish.unwrap()),
            text(&Message::FailedHandshake("a".into(), attempt))
        );
        assert_eq!(step.retry_after, Some(1 << attempt));
    }
    let step = connector.step(AttemptOutcome::Opened);
    assert_eq!(text(&step.publish.unwrap()), text(&Message::SuccessfulHandshake("a".into())));
    assert_eq!(step.retry_after, None);
    let step = connector.step(AttemptOutcome::Removed);
    assert!(step.publish.is_none() && step.retry_after.is_none());
}

#[test]
fn pings_are_answered_where_they_came() {
    let manager = open_manager();
    let reply = manager.pong_reply(Message::PingMessage("a".into(), "x".into())).unwrap();
    assert_eq!(*reply.writer, 1);
    assert_eq!(text(&reply.message), text(&Message::PongMessage("a".into(), "x".into())));
    assert!(manager.pong_reply(Message::PingMessage("b".into(), "x".into())).is_none());
    assert!(manager.pong_reply(Message::PingMessage("c".into(), "x".into())).is_none());
    assert!(manager.pong_reply(Message::PongMessage("a".into(), "x".into())).is_none());
}

#[test]
fn errors_call_for_a_reconnection() {
    let a = || "a".to_string();
    assert_eq!(reconnect_target(Message::ReadError(a(), "e".into())), Some(a()));
    assert_eq!(reconnect_target(Message::WriteError(a(), "e".into())), Some(a()));
    assert_eq!(reconnect_target(Message::PongReceiveTimeoutError(a())), Some(a()));
    assert_eq!(reconnect_target(Message::TextMessage(a(), "e".into())), None);
    assert_eq!(reconnect_target(Message::FailedHandshake(a(), 1)), None);
}

#[test]
fn shutting_down_ends_every_open_connection() {
    let mut manager = open_manager();
    manager.new_conn("c", create_test_config("c", "ws://c"));
    manager.begin_attempt("c");
    manager.finish_attempt("c", Ok((3, 30)));
    let mut tokens: Vec<(String, u16)> = manager
        .shutdown()
        .into_iter()
        .map(|(name, link)| (name, link.cancel_token))
        .collect();
    tokens.sort();
    assert_eq!(tokens, vec![("a".to_string(), 10), ("c".to_string(), 30)]);
    assert!(matches!(manager.write("a", note()), Err(ManagerError::ConnectionInactive(_))));
    assert!(manager.shutdown().is_empty());
}

#[test]
fn a_ping_is_echoed_byte_for_byte() {
    let manager = open_manager();
    let reader = ReadActor::new("a".to_string());
    let writer = WriteActor::new("a".to_string());
    let data = "{\"method\":\"ping\"} \u{e9}".as_bytes().to_vec();
    let published = reader.message(WireMessage::Ping(data.clone()));
    let reply = manager.pong_reply(published).unwrap();
    match writer.handle_message(reply.message) {
        Some(WireMessage::Pong(echo)) => assert_eq!(echo, data),
        _ => panic!("expected a pong"),
    }
}

#[test]
fn a_reconnected_connection_works_again() {
    let mut manager = open_manager();
    let reconnecting = manager.reconnect("a").unwrap();
    let starting = manager.new_conn("a", reconnecting.config);
    assert!(!starting.start_loops);
    let (request, replaced) = manager.begin_attempt("a").unwrap();
    assert_eq!(request.unwrap().uri().host(), Some("a"));
    assert!(replaced.is_none());
    let opened = manager.finish_attempt("a", Ok((7, 70))).unwrap().unwrap();
    assert_eq!(opened.ping.config.url, "ws://a");
    assert_eq!(*manager.write("a", note()).unwrap().writer, 7);
}
