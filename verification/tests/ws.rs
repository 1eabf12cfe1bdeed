use std::sync::Arc;
use std::time::{Duration, SystemTime};

use kharbranth::connection::ConnectionError;
use kharbranth::hooks::{HookCall, HookType, ReadHooks};
use kharbranth::wire::{CloseFrame, FrameHeader, OpCode, RawFrame, WireMessage};
use kharbranth::ws::{
    Config, Connection, PingLoop, ReadInput, ReadLoop, Supervisor, SupervisorEvent, WSManager,
};

type Hooks = ReadHooks<u8, u16, u32, u64>;

fn create_config(url: &str) -> Config {
    Config {
        url: url.to_string(),
        ping_duration: 10,
        ping_message: "{\"method\": \"ping\"}".to_string(),
        reconnect_timeout: 5,
    }
}

fn all_hooks() -> Hooks {
    let mut hooks: Hooks = ReadHooks::new();
    hooks.add_hook(HookType::Text(1));
    hooks.add_hook(HookType::Binary(2));
    hooks.add_hook(HookType::Ping(3));
    hooks.add_hook(HookType::Pong(4));
    hooks.add_hook(HookType::Close(5));
    hooks.add_hook(HookType::Frame(6));
    hooks
}

fn raw_frame(payload: Vec<u8>) -> RawFrame {
    RawFrame {
        header: FrameHeader {
            is_final: true,
            rsv1: false,
            rsv2: true,
            rsv3: false,
            opcode: OpCode::Binary,
            mask: None,
        },
        payload,
    }
}

fn every_frame() -> Vec<WireMessage> {
    vec![
        WireMessage::Text("t".into()),
        WireMessage::Binary(vec![1]),
        WireMessage::Ping(vec![2]),
        WireMessage::Pong(vec![3]),
        WireMessage::Close(Some(CloseFrame { code: 1000, reason: "r".into() })),
        WireMessage::Frame(raw_frame(vec![9])),
    ]
}

#[test]
fn without_hooks_none_is_called() {
    let hooks: Hooks = ReadHooks::default();
    for frame in every_frame() {
        assert!(hooks.call_for(&frame).is_none());
    }
}

#[test]
fn each_kind_of_message_calls_its_hook() {
    let hooks = all_hooks();
    let calls: Vec<String> = every_frame()
        .iter()
        .map(|frame| match hooks.call_for(frame).unwrap() {
            HookCall::Text(hook, text) => format!("{} {}", hook, text),
            HookCall::Bytes(hook, data) => format!("{} {:?}", hook, data),
            HookCall::Close(hook, close) => format!("{} {}", hook, close.unwrap().reason),
            HookCall::Frame(hook, raw) => {
                assert_eq!(format!("{:?}", raw), format!("{:?}", raw_frame(vec![9])));
                format!("{} {:?}", hook, raw.payload)
            }
        })
        .collect();
    assert_eq!(calls, vec!["1 t", "2 [1]", "3 [2]", "4 [3]", "5 r", "6 [9]"]);
}

#[test]
fn the_last_hook_of_a_kind_stays() {
    let mut hooks = all_hooks();
    hooks.add_hook(HookType::Ping(33));
    assert_eq!(*hooks.on_ping, Some(33));
    assert_eq!(*hooks.on_pong, Some(4));
    assert_eq!(*hooks.on_binary, Some(2));
}

#[test]
fn shared_hooks_are_the_same() {
    let hooks = all_hooks();
    let shared = hooks.share();
    assert!(Arc::ptr_eq(&hooks.on_text, &shared.on_text));
    assert_eq!(*shared.on_frame, Some(6));
}

#[test]
fn pings_go_on_until_one_fails() {
    let pings = PingLoop { payload: vec![1, 2], ping_duration: 10 };
    assert!(matches!(pings.ping(), WireMessage::Ping(data) if data == vec![1, 2]));
    assert_eq!(pings.step(true).unwrap(), 10);
    assert!(matches!(pings.step(false), Err(ConnectionError::PingFailed)));
}

fn reads(last_pong: SystemTime) -> ReadLoop<u8, u16, u32, u64> {
    ReadLoop { hooks: all_hooks(), ping_duration: 10, last_pong }
}

#[test]
fn a_pong_is_overdue_five_seconds_after_the_next_ping() {
    let now = SystemTime::now();
    assert!(reads(now).check_elapsed(None).is_ok());
    assert!(reads(now).check_elapsed(Some(15_000_000_000)).is_ok());
    assert!(matches!(
        reads(now).check_elapsed(Some(15_000_000_001)),
        Err(ConnectionError::PingFailed)
    ));
    assert!(reads(now).check_pong().is_ok());
    assert!(reads(now - Duration::from_secs(14)).check_pong().is_ok());
    assert!(reads(now - Duration::from_secs(16)).check_pong().is_err());
    assert!(reads(now + Duration::from_secs(3600)).check_pong().is_ok());
}

#[test]
fn only_a_close_ends_the_reading() {
    let start = SystemTime::now() - Duration::from_secs(100);
    let now = SystemTime::now();
    for frame in every_frame() {
        let mut reading = reads(start);
        let is_pong = matches!(frame, WireMessage::Pong(_));
        let is_close = matches!(frame, WireMessage::Close(_));
        let input = ReadInput::Received(frame);
        assert!(reading.call_for(&input).is_some());
        match reading.step_at(&input, now) {
            Ok(()) => assert!(!is_close),
            Err(error) => {
                assert!(is_close && matches!(error, ConnectionError::CloseFrameReceived))
            }
        }
        assert_eq!(reading.last_pong, if is_pong { now } else { start });
    }
    let mut reading = reads(start);
    assert!(reading.call_for(&ReadInput::Failed).is_none());
    assert!(reading.step(&ReadInput::Failed).is_ok());
    assert!(reading.step(&ReadInput::Ended).is_ok());
    assert_eq!(reading.last_pong, start);
    assert!(reading.step(&ReadInput::Received(WireMessage::Pong(vec![]))).is_ok());
    assert!(reading.last_pong >= now);
}

#[test]
fn an_opened_connection_has_its_loops() {
    let mut conn: Connection<u8, u16, u8, u16, u32, u64> =
        Connection::new(create_config("ws://h"), all_hooks());
    assert!(conn.read.is_none() && conn.write.is_none());
    assert!(conn.request().is_ok());
    let (reading, pings) = conn.start_loop(1, 2);
    assert_eq!(*reading.hooks.on_text, Some(1));
    assert_eq!(reading.ping_duration, 10);
    assert!(reading.check_pong().is_ok());
    assert_eq!(pings.payload, b"{\"method\": \"ping\"}".to_vec());
    assert_eq!(pings.ping_duration, 10);
    let delivery = conn.write(WireMessage::Frame(raw_frame(vec![4])));
    assert_eq!(*delivery.writer, 2);
    assert_eq!(
        format!("{:?}", delivery.message),
        format!("{:?}", WireMessage::Frame(raw_frame(vec![4])))
    );
}

#[test]
fn a_supervisor_heeds_its_own_name() {
    let supervisor = Supervisor { name: "hl".to_string(), reconnect_timeout: 5 };
    let told = |name: &str, code: u8| SupervisorEvent::Broadcast((name.to_string(), code));
    for (event, abort) in vec![
        (told("hl", 0), true),
        (told("hl", 1), false),
        (told("other", 0), false),
        (SupervisorEvent::BroadcastFailed, false),
        (SupervisorEvent::ReadEnded, true),
        (SupervisorEvent::PingEnded, true),
    ] {
        let step = supervisor.step(event);
        assert_eq!(step.abort_loops, abort);
        assert_eq!(step.pause_secs, 5);
    }
}

#[test]
fn a_ws_manager_keeps_one_connection_for_each_name() {
    let mut manager: WSManager<u8, u16, u8, u16, u32, u64> = WSManager::new();
    assert!(manager.start().is_empty());
    assert!(manager.write("hl", WireMessage::Frame(raw_frame(vec![1]))).is_none());
    manager.new_conn("hl", create_config("ws://old"), all_hooks());
    manager.new_conn("kr", create_config("nowhere at all"), all_hooks());
    let mut newer = create_config("ws://new");
    newer.reconnect_timeout = 7;
    manager.new_conn("hl", newer, all_hooks());
    let mut watched: Vec<(String, u64)> = manager
        .start()
        .into_iter()
        .map(|supervisor| (supervisor.name, supervisor.reconnect_timeout))
        .collect();
    watched.sort();
    assert_eq!(watched, vec![("hl".to_string(), 7), ("kr".to_string(), 5)]);
    let request = manager.request("hl").unwrap().unwrap();
    assert_eq!(request.uri().host(), Some("new"));
    assert!(manager.request("kr").unwrap().is_err());
    assert!(manager.request("other").is_none());
    assert_eq!(manager.is_open("hl"), Some(false));
    assert_eq!(manager.is_open("other"), None);
    assert!(manager.start_loop("other", 1, 2).is_none());
    assert!(manager.start_loop("hl", 1, 2).is_some());
    assert_eq!(manager.is_open("hl"), Some(true));
    assert_eq!(manager.is_open("kr"), Some(false));
    let delivery = manager.write("hl", WireMessage::Frame(raw_frame(vec![1]))).unwrap();
    assert_eq!(*delivery.writer, 2);
    match delivery.message {
        WireMessage::Frame(raw) => assert_eq!(raw.payload, vec![1]),
        _ => panic!("Expected a raw frame"),
    }
}
