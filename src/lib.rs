//! A client-side connection manager for one persistent WebSocket connection.
//!
//! The library holds the parts of the client that decide: validated options,
//! the control and event protocols, the classification of read failures and
//! the lifecycle of an event loop. Performing the socket reads and writes,
//! sleeping and running threads is left to the caller, which hands the library
//! plain values and performs what it is told.
//!
//! The order of the events of a run, and what a forced quit, a repeated close
//! and a text round trip do, are stated as proof functions in `event_loop`.

pub mod error;
pub mod event_loop;
pub mod interval;
pub mod options;
pub mod read_failure;
pub mod slot;
pub mod types;
pub mod uri;

pub use error::{engine_failure_error, EngineFailure, S9Result, S9WebSocketError};
pub use event_loop::{AppliedCommand, CommandStep, EventLoop, FrameKind, Inbound, LoopPhase, OutboundFrame, ReadStep};
pub use interval::{Interval, NANOS_PER_SEC};
pub use options::{BlockingOptions, NonBlockingOptions, SharedOptions, SocketSetting};
pub use read_failure::{classify_read_failure, is_connection_closed_error, LoopKind, ReadFailure, ReadVerdict};
pub use slot::SocketSlot;
pub use types::{ControlMessage, S9WebSocketClientHandler, WebSocketEvent};
pub use uri::parse_uri;
