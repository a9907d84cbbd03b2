use vstd::prelude::*;

verus! {

/// Callbacks of the callback-driven clients.
///
/// The client passes itself as `client` to every callback, so a callback may
/// send, close or force a quit directly. Every method does nothing by default:
/// an implementation overrides only what it needs.
///
/// Order within one run: `on_activated` once; then each iteration `on_poll`,
/// followed by one of the message callbacks, `on_idle` when no data was ready,
/// or nothing; at the end `on_connection_closed` or `on_error`, where the loop
/// ends on a close or a failure, and `on_quit` last, once.
pub trait S9WebSocketClientHandler<C> {
    /// Called once, before the first iteration.
    fn on_activated(&mut self, _client: &mut C) {
    }

    /// Called at the start of every iteration, before the read.
    fn on_poll(&mut self, _client: &mut C) {
    }

    /// Called when a read found no data ready.
    fn on_idle(&mut self, _client: &mut C) {
    }

    /// Called with the UTF-8 bytes of a text message that arrived.
    fn on_text_message(&mut self, _client: &mut C, _data: &[u8]) {
    }

    /// Called with the bytes of a binary message that arrived.
    fn on_binary_message(&mut self, _client: &mut C, _data: &[u8]) {
    }

    /// Called with the payload of a ping that arrived; the engine answers it.
    fn on_ping(&mut self, _client: &mut C, _data: &[u8]) {
    }

    /// Called with the payload of a pong that arrived.
    fn on_pong(&mut self, _client: &mut C, _data: &[u8]) {
    }

    /// Called when the connection closed, with the reason where one is known.
    fn on_connection_closed(&mut self, _client: &mut C, _reason: Option<String>) {
    }

    /// Called with the description of a failure that ends the loop, or of a
    /// send that failed.
    fn on_error(&mut self, _client: &mut C, _error: String) {
    }

    /// Called once, last, when the loop ends.
    fn on_quit(&mut self, _client: &mut C) {
    }
}

/// What a running connection reports.
#[derive(Clone, Debug, PartialEq, Eq)]
pub enum WebSocketEvent {
    /// The loop started; always the first event of a run.
    Activated,
    /// A text message arrived, as its UTF-8 bytes.
    TextMessage(Vec<u8>),
    /// A binary message arrived.
    BinaryMessage(Vec<u8>),
    /// A ping arrived, with its payload.
    Ping(Vec<u8>),
    /// A pong arrived, with its payload.
    Pong(Vec<u8>),
    /// The connection closed, with the reason where one is known; `Quit` follows.
    ConnectionClosed(Option<String>),
    /// A failure, described; where it ends the loop, `Quit` follows.
    Error(String),
    /// The loop ends; always the last event of a run.
    Quit,
}

/// What a caller asks of a running connection.
#[derive(Clone, Debug, PartialEq, Eq)]
pub enum ControlMessage {
    /// Send a text message.
    SendText(String),
    /// Send a binary message.
    SendBinary(Vec<u8>),
    /// Send a ping with this payload.
    SendPing(Vec<u8>),
    /// Send a pong with this payload.
    SendPong(Vec<u8>),
    /// Ask for a graceful close; the loop goes on until the peer answers.
    Close(),
    /// End the loop at once, without the close handshake.
    ForceQuit(),
}

} // verus!
