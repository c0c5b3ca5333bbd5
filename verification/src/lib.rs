//! A WebSocket client core with one interface for two worlds: a worker thread
//! that owns a blocking socket, and a browser-style host that reports through
//! callbacks.
//!
//! Everything here is free of I/O. The drivers are state machines: the code
//! that owns the socket feeds them what happened and performs the action they
//! answer with. The queues between caller and driver are plain values, and the
//! contracts state their order exactly.
//!
//! - `message`: the messages, events and frames that are exchanged.
//! - `options`: the configuration of a connection.
//! - `outgoing`: the outgoing queue and its sender.
//! - `channel`: the event channel, its receiver and its handler.
//! - `request`: the handshake request and the transport's configuration.
//! - `native`: the driver of a connection on a blocking socket.
//! - `hosted`: the driver of a connection on a host's callbacks.
//! - `connect`: the entry points.

pub mod channel;
pub mod connect;
pub mod hosted;
pub mod message;
pub mod native;
pub mod options;
pub mod outgoing;
pub mod request;

pub use channel::{EventHandler, WsReceiver};
pub use connect::{connect, connect_with_wakeup, ws_connect, ws_receive};
pub use message::{WsEvent, WsMessage};
pub use options::Options;
pub use outgoing::WsSender;
pub use request::into_requester;
