//! The entry points: from a URL and options to everything a worker needs to
//! make the connection and run it.
//!
//! Nothing here touches the network. A malformed URL is refused on the spot;
//! what the handshake and the worker's start may still refuse is for the code
//! that performs them to report, before any event is emitted.

use crate::channel::{
    lemma_deliver_all_appends, lemma_events_arrive_in_order, Channel, EventHandler, WsReceiver,
};
use crate::message::WsEvent;
use crate::native::{lemma_every_run_keeps_order, Driver, Input, NativeDriver};
use crate::options::{frame_limit_of, Options};
use crate::outgoing::{Outgoing, WsSender};
use crate::request::{
    config_frame_limit, into_requester, malformed_url_text, parse_url, request_headers,
    request_protocols, request_target, uri_parse, websocket_config,
};
use std::time::Duration;
use tungstenite::client::ClientRequestBuilder;
use tungstenite::protocol::WebSocketConfig;
use vstd::prelude::*;

verus! {

/// How many redirects the handshake follows.
pub const MAX_REDIRECTS: u8 = 3;

/// A connection that is ready to be made: what to hand to the handshake, and
/// the driver to run afterwards.
pub struct Connection {
    pub request: ClientRequestBuilder,
    pub config: WebSocketConfig,
    pub max_redirects: u8,
    pub driver: NativeDriver,
}

impl Connection {
    /// Whether this is the connection to `target` that `options` describe:
    /// the request carries the options' headers and subprotocols, the
    /// configuration their frame limit, up to three redirects are followed,
    /// and the driver waits for the handshake.
    pub open spec fn follows(self, target: Seq<char>, options: Options, receive_only: bool) -> bool {
        &&& request_target(self.request) == target
        &&& request_headers(self.request) == options.headers()
        &&& request_protocols(self.request) == options.protocols()
        &&& config_frame_limit(self.config) == frame_limit_of(options.max_incoming_frame_size)
        &&& self.max_redirects == 3
        &&& self.driver@ == Driver::start(options.read_timeout, receive_only)
        &&& self.driver@.wf()
    }
}

fn plan(url: &str, options: Options, receive_only: bool) -> (planned: Result<Connection, String>)
    ensures
        match uri_parse(url@) {
            Ok(target) => planned matches Ok(connection) && connection.follows(
                target,
                options,
                receive_only,
            ),
            Err(reason) => planned matches Err(text) && text@ == malformed_url_text(url@, reason),
        },
{
    match parse_url(url) {
        Ok(uri) => {
            let config = websocket_config(&options);
            let driver = NativeDriver::new(options.read_timeout, receive_only);
            let request = into_requester(uri, options);
            Ok(Connection { request, config, max_redirects: MAX_REDIRECTS, driver })
        },
        Err(text) => Err(text),
    }
}

/// Prepares a connection and the sender for its outgoing messages. The
/// events go to a handler of the caller's choice.
///
/// Fails on a malformed URL, and only then. On success the sender is open on
/// an empty queue and the driver waits for the handshake.
pub fn ws_connect(url: String, options: Options) -> (made: Result<(WsSender, Connection), String>)
    ensures
        match uri_parse(url@) {
            Ok(target) => made matches Ok(pair) && pair.0@ == Outgoing::fresh() && pair.0@.wf()
                && pair.1.follows(target, options, false),
            Err(reason) => made matches Err(text) && text@ == malformed_url_text(url@, reason),
        },
{
    match plan(url.as_str(), options, false) {
        Ok(connection) => Ok((WsSender::new(), connection)),
        Err(text) => Err(text),
    }
}

/// Prepares a connection that only receives: there is no sender, and the
/// driver never looks for outgoing messages.
///
/// Fails on a malformed URL, and only then.
pub fn ws_receive(url: String, options: Options) -> (made: Result<Connection, String>)
    ensures
        match uri_parse(url@) {
            Ok(target) => made matches Ok(connection) && connection.follows(target, options, true),
            Err(reason) => made matches Err(text) && text@ == malformed_url_text(url@, reason),
        },
{
    plan(url.as_str(), options, true)
}

/// What `connect` and `connect_with_wakeup` hand out.
pub struct Connected {
    /// The sender for outgoing messages.
    pub sender: WsSender,
    /// The receiver for the connection's events.
    pub receiver: WsReceiver,
    /// The handler that feeds the receiver.
    pub on_event: EventHandler,
    /// What the worker needs.
    pub connection: Connection,
}

impl Connected {
    /// Whether these are fresh parts of a connection to `target` that
    /// `options` describe.
    pub open spec fn follows(self, target: Seq<char>, options: Options, wakes: bool) -> bool {
        &&& self.sender@ == Outgoing::fresh()
        &&& self.sender@.wf()
        &&& self.receiver@ == Channel::fresh()
        &&& self.on_event.wakes() == wakes
        &&& self.connection.follows(target, options, false)
    }
}

fn assemble(url: String, options: Options, pair: (WsReceiver, EventHandler)) -> (made: Result<
    Connected,
    String,
>)
    ensures
        match uri_parse(url@) {
            Ok(target) => made matches Ok(parts) && parts.sender@ == Outgoing::fresh()
                && parts.sender@.wf() && parts.receiver == pair.0 && parts.on_event == pair.1
                && parts.connection.follows(target, options, false),
            Err(reason) => made matches Err(text) && text@ == malformed_url_text(url@, reason),
        },
{
    let (receiver, on_event) = pair;
    match ws_connect(url, options) {
        Ok((sender, connection)) => Ok(Connected { sender, receiver, on_event, connection }),
        Err(text) => Err(text),
    }
}

/// Prepares a connection together with a fresh receiver for its events, the
/// handler that feeds it, and the sender for its outgoing messages.
///
/// Fails on a malformed URL, and only then; no sender or receiver is made
/// in that case.
pub fn connect(url: String, options: Options) -> (made: Result<Connected, String>)
    ensures
        match uri_parse(url@) {
            Ok(target) => made matches Ok(parts) && parts.follows(target, options, false),
            Err(reason) => made matches Err(text) && text@ == malformed_url_text(url@, reason),
        },
{
    assemble(url, options, WsReceiver::new())
}

/// Like `connect`, with a handler that asks for the caller's wake-up hook on
/// every event that it queues.
pub fn connect_with_wakeup(url: String, options: Options) -> (made: Result<Connected, String>)
    ensures
        match uri_parse(url@) {
            Ok(target) => made matches Ok(parts) && parts.follows(target, options, true),
            Err(reason) => made matches Err(text) && text@ == malformed_url_text(url@, reason),
        },
{
    assemble(url, options, WsReceiver::new_with_callback())
}

/// From the socket to the caller, the events keep their order: whatever a
/// connection has gone through since its start, a receiver that was fed
/// every event that the driver emitted hands them out one by one as they were
/// emitted, `Opened` first if there is any, and nothing after `Closed`.
pub proof fn lemma_receiver_gets_what_was_emitted(
    read_timeout: Option<Duration>,
    receive_only: bool,
    inputs: Seq<Input>,
)
    requires
        Driver::start(read_timeout, receive_only).admits(inputs),
    ensures
        ({
            let emitted = Driver::start(read_timeout, receive_only).after(inputs).emitted;
            let fed = Channel::fresh().deliver_all(emitted);
            &&& fed.drain(emitted.len()) == emitted.map_values(|e: WsEvent| Some(e))
            &&& emitted.len() > 0 ==> fed.front() == Some(WsEvent::Opened)
            &&& forall|i: int|
                0 <= i < emitted.len() && (#[trigger] emitted[i]) is Closed ==> i == emitted.len()
                    - 1
        }),
{
    let start = Driver::start(read_timeout, receive_only);
    lemma_every_run_keeps_order(start, inputs);
    let emitted = start.after(inputs).emitted;
    lemma_events_arrive_in_order(emitted);
    lemma_deliver_all_appends(Channel::fresh(), emitted);
    assert(Channel::fresh().queued + emitted =~= emitted);
}

} // verus!
