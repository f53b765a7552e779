use channel_runner::config::Server;
use channel_runner::events::Identify;
use channel_runner::websocket::{
    accepts_frame, heartbeat_message, identify_message, server_url, FrameKind, OpCodes,
    WebsocketEvent, HEARTBEAT_INTERVAL_SECS,
};

#[test]
fn server_url_names_host_and_port() {
    let server = Server { host: "127.0.0.1".to_string(), port: "8080".to_string() };
    assert_eq!(server_url(&server), "ws://127.0.0.1:8080/api/ws?name=runner1&password=runner1234");
}

#[test]
fn only_text_and_binary_frames_are_read() {
    assert!(accepts_frame(FrameKind::Text));
    assert!(accepts_frame(FrameKind::Binary));
    assert!(!accepts_frame(FrameKind::Ping));
    assert!(!accepts_frame(FrameKind::Pong));
    assert!(!accepts_frame(FrameKind::Close));
    assert!(!accepts_frame(FrameKind::Frame));
}

#[test]
fn heartbeat_is_an_ack_without_event() {
    let m = heartbeat_message();
    assert_eq!(m.op, OpCodes::HeartBeatAck);
    assert!(m.event.is_none());
    assert_eq!(HEARTBEAT_INTERVAL_SECS, 10);
}

#[test]
fn identify_message_carries_name_and_token() {
    let m = identify_message("ibis1".to_string(), "tok".to_string());
    assert_eq!(m.op, OpCodes::Identify);
    assert_eq!(
        m.event,
        Some(WebsocketEvent::Identify(Identify { name: "ibis1".to_string(), token: "tok".to_string() }))
    );
}
