//! Keeps WebSocket connections open: reads from them, writes to them, answers and sends pings,
//! and opens them again when they fail.
//!
//! The actors, the manager and the queues are state machines: each takes an event and says what
//! is to be done about it. Sockets, channels, timers and tasks belong to whoever drives them.

pub mod clock;
pub mod config;
pub mod connection;
pub mod hooks;
pub mod manager;
pub mod message;
pub mod names;
pub mod ping;
pub mod request;
pub mod routing;
pub mod text;
pub mod wire;
pub mod ws;

pub use config::Config;
pub use connection::ConnectionMessage;
pub use manager::Manager;
pub use message::Message;
