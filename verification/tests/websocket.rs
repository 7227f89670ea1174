use haven::logger::LogLevel;
use haven::requests::http_request::HttpRequest;
use haven::server::ws::handler::{
    after_command, after_restart, dispatch, generate_accept_key, handshake, initial_messages,
    on_event, status_message, FollowUp, WsEvent, WsStep, WsTask,
};
use haven::server::ws::messages::{ClientMessage, ServerMessage};
use haven::logger::broadcast::LogLine;
use haven::vpn::{CoreError, CoreState};

#[test]
fn accept_key_matches_rfc_6455_example() {
    assert_eq!(generate_accept_key("dGhlIHNhbXBsZSBub25jZQ=="), "s3pPLMBiTxaQ9kYGzzhZRbK+xOo=");
}

#[test]
fn handshake_answers_upgrade_requests() {
    let req = HttpRequest::new(
        "GET /ws HTTP/1.1\r\nUpgrade: websocket\r\nSec-WebSocket-Key:  dGhlIHNhbXBsZSBub25jZQ== \r\n\r\n",
    )
    .unwrap();
    let response = handshake(&req).expect("upgrade requested");
    assert_eq!(
        response,
        "HTTP/1.1 101 Switching Protocols\r\nUpgrade: websocket\r\nConnection: Upgrade\r\nSec-WebSocket-Accept: s3pPLMBiTxaQ9kYGzzhZRbK+xOo=\r\n\r\n"
    );
}

#[test]
fn handshake_refuses_requests_without_upgrade() {
    let req = HttpRequest::new("GET /ws HTTP/1.1\r\nHost: x\r\n\r\n").unwrap();
    assert!(handshake(&req).is_none());
    let req = HttpRequest::new("GET /ws HTTP/1.1\r\nUpgrade: WebSocket\r\n\r\n").unwrap();
    assert!(handshake(&req).is_none());
}

#[test]
fn set_log_level_is_dispatched_by_validity() {
    match dispatch(ClientMessage::SetLogLevel { level: "DEBUG".to_string() }) {
        WsTask::SetLevel { level, reply: ServerMessage::LogLevelChanged { level: echoed } } => {
            assert_eq!(level, LogLevel::Debug);
            assert_eq!(echoed, "DEBUG");
        }
        other => panic!("unexpected task {:?}", other),
    }
    match dispatch(ClientMessage::SetLogLevel { level: "loud".to_string() }) {
        WsTask::Reply(ServerMessage::Error { code, message }) => {
            assert_eq!(code, "InvalidLevel");
            assert_eq!(message, "Unknown log level: loud");
        }
        other => panic!("unexpected task {:?}", other),
    }
}

#[test]
fn commands_are_dispatched() {
    assert!(matches!(dispatch(ClientMessage::Status), WsTask::SendStatus));
    assert!(matches!(
        dispatch(ClientMessage::Connect { location: Some("Helsinki".to_string()) }),
        WsTask::Connect { location: Some(ref l) } if l == "Helsinki"
    ));
    assert!(matches!(dispatch(ClientMessage::Disconnect), WsTask::Disconnect));
    assert!(matches!(dispatch(ClientMessage::ReconnectWifi), WsTask::ReconnectWifi));
    assert!(matches!(dispatch(ClientMessage::Restart), WsTask::Restart));
    assert!(matches!(dispatch(ClientMessage::RefreshLocations), WsTask::RefreshLocations));
    assert!(matches!(dispatch(ClientMessage::GetSystemInfo), WsTask::SendSystemInfo));
}

#[test]
fn failed_commands_report_their_error() {
    assert!(matches!(after_command(&Ok(())), FollowUp::SendStatus));
    let err = CoreError::CommandFailed { cmd: "adguardvpn-cli connect".to_string(), stderr: "boom".to_string() };
    match after_command(&Err(err)) {
        FollowUp::Reply(ServerMessage::Error { code, message }) => {
            assert_eq!(code, "CommandFailed");
            assert_eq!(message, "Command 'adguardvpn-cli connect' failed: boom");
        }
        other => panic!("unexpected follow-up {:?}", other),
    }
    assert!(after_restart(&Ok(())).is_none());
    assert!(after_restart(&Err(CoreError::IoError("gone".to_string()))).is_some());
}

#[test]
fn failed_status_query_reports_disconnected() {
    match status_message(Err(CoreError::IoError("no binary".to_string()))) {
        ServerMessage::StatusUpdate { state, location } => {
            assert_eq!(state, CoreState::Disconnected);
            assert_eq!(location, None);
        }
        other => panic!("unexpected message {:?}", other),
    }
    match status_message(Ok((CoreState::Connected, Some("Oslo".to_string())))) {
        ServerMessage::StatusUpdate { state, location } => {
            assert_eq!(state, CoreState::Connected);
            assert_eq!(location, Some("Oslo".to_string()));
        }
        other => panic!("unexpected message {:?}", other),
    }
}

#[test]
fn session_opens_with_locations_and_level() {
    let msgs = initial_messages(Vec::new(), LogLevel::Warn);
    assert_eq!(msgs.len(), 2);
    assert!(matches!(&msgs[0], ServerMessage::LocationList { locations } if locations.is_empty()));
    assert!(matches!(&msgs[1], ServerMessage::LogLevelChanged { level } if level == "warn"));
}

#[test]
fn events_decide_the_next_step() {
    assert!(matches!(on_event(WsEvent::Close), WsStep::Stop));
    assert!(matches!(on_event(WsEvent::Closed), WsStep::Stop));
    assert!(matches!(on_event(WsEvent::Failed), WsStep::Stop));
    assert!(matches!(on_event(WsEvent::Idle), WsStep::Continue));
    assert!(matches!(on_event(WsEvent::Other), WsStep::Continue));
    assert!(matches!(on_event(WsEvent::LogSendFailed), WsStep::Stop));
    match on_event(WsEvent::Unparseable { error: "expected value".to_string(), text: "x\"y".to_string() }) {
        WsStep::Warn(w) => assert_eq!(w, "Unparseable client message: expected value \u{2014} \"x\\\"y\""),
        other => panic!("unexpected {:?}", other),
    }
    assert!(matches!(on_event(WsEvent::Ping(vec![1, 2])), WsStep::Pong(ref d) if d == &vec![1u8, 2]));
    assert!(matches!(on_event(WsEvent::Text(ClientMessage::Status)), WsStep::Handle(ClientMessage::Status)));
}

#[test]
fn log_lines_become_messages() {
    let line = LogLine {
        timestamp: "t".to_string(),
        level: "INFO".to_string(),
        tag: "ws".to_string(),
        pid: 1,
        tid: 2,
        message: "m".to_string(),
    };
    match ServerMessage::from_log_line(&line) {
        ServerMessage::LogLine { timestamp, level, tag, pid, tid, message } => {
            assert_eq!((timestamp.as_str(), level.as_str(), tag.as_str(), pid, tid, message.as_str()), ("t", "INFO", "ws", 1, 2, "m"));
        }
        other => panic!("unexpected message {:?}", other),
    }
}
