//! The messages exchanged with the server over the websocket, and what the
//! runner decides about them: the address it connects to, which frames it
//! reads, and the messages it sends on its own.

use vstd::prelude::*;
use crate::config::Server;
use crate::events::{CreateJobRun, Identify};

verus! {

/// The kind of a websocket message.
#[derive(Debug, Clone, Copy, PartialEq, Eq)]
pub enum OpCodes {
    Hello,
    Identify,
    HeartBeatAck,
    EventCreate,
}

/// The payload that a message may carry.
#[derive(Debug, Clone, PartialEq, Eq)]
pub enum WebsocketEvent {
    CreateJobRun(CreateJobRun),
    Identify(Identify),
}

/// A message on the websocket.
#[derive(Debug, Clone, PartialEq, Eq)]
pub struct WebsocketMessage {
    pub op: OpCodes,
    pub event: Option<WebsocketEvent>,
}

/// The kind of a frame read from the websocket.
#[derive(Debug, Clone, Copy, PartialEq, Eq)]
pub enum FrameKind {
    Text,
    Binary,
    Ping,
    Pong,
    Close,
    Frame,
}

/// Seconds between two heartbeats.
pub const HEARTBEAT_INTERVAL_SECS: u64 = 10;

/// The address of the websocket endpoint of `server`.
pub open spec fn spec_server_url(host: Seq<char>, port: Seq<char>) -> Seq<char> {
    "ws://"@ + host + ":"@ + port + "/api/ws?name=runner1&password=runner1234"@
}

/// The address the runner connects to.
pub fn server_url(server: &Server) -> (url: String)
    ensures
        url@ == spec_server_url(server.host@, server.port@),
{
    let mut url = String::from_str("ws://");
    url.append(server.host.as_str());
    url.append(":");
    url.append(server.port.as_str());
    url.append("/api/ws?name=runner1&password=runner1234");
    url
}

/// Whether a frame carries a message to decode: text and binary frames do,
/// control frames do not.
pub fn accepts_frame(kind: FrameKind) -> (b: bool)
    ensures
        b == (kind == FrameKind::Text || kind == FrameKind::Binary),
{
    match kind {
        FrameKind::Text => true,
        FrameKind::Binary => true,
        _ => false,
    }
}

/// The message the runner sends every heartbeat interval.
pub fn heartbeat_message() -> (m: WebsocketMessage)
    ensures
        m.op == OpCodes::HeartBeatAck,
        m.event is None,
{
    WebsocketMessage { op: OpCodes::HeartBeatAck, event: None }
}

/// The message by which the runner identifies itself.
pub fn identify_message(name: String, token: String) -> (m: WebsocketMessage)
    ensures
        m.op == OpCodes::Identify,
        m.event == (Some(WebsocketEvent::Identify(Identify { name: name, token: token }))),
{
    WebsocketMessage { op: OpCodes::Identify, event: Some(WebsocketEvent::Identify(Identify { name, token })) }
}

/// The address is "ws://", then the host, then ':' and the port, then the
/// endpoint path: host and port always both appear, in that order.
pub proof fn law_server_url_layout(host: Seq<char>, port: Seq<char>)
    ensures
        spec_server_url(host, port).take(5) == "ws://"@,
        spec_server_url(host, port).subrange(5, 5 + host.len() as int) == host,
        spec_server_url(host, port)[5 + host.len() as int] == ':',
        spec_server_url(host, port).subrange(6 + host.len() as int, 6 + host.len() + port.len() as int) == port,
        spec_server_url(host, port).skip(6 + host.len() + port.len() as int)
            == "/api/ws?name=runner1&password=runner1234"@,
{
    reveal_strlit("ws://");
    reveal_strlit(":");
    let u = spec_server_url(host, port);
    let path = "/api/ws?name=runner1&password=runner1234"@;
    assert(u =~= "ws://"@ + host + seq![':'] + port + path);
    assert(u.take(5) =~= "ws://"@);
    assert(u.subrange(5, 5 + host.len() as int) =~= host);
    assert(u.subrange(6 + host.len() as int, 6 + host.len() + port.len() as int) =~= port);
    assert(u.skip(6 + host.len() + port.len() as int) =~= path);
}

} // verus!
