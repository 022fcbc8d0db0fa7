//! A minimal real-time chat relay: length-prefixed message framing, a
//! bounded broadcast hub with a documented lag/drop policy, per-connection
//! handshake and relay state machines, and the client-side line parsing and
//! input editing. All decision logic is verified; socket and terminal I/O
//! live outside the library and drive it with plain values.

pub mod client;
pub mod codec;
pub mod handler;
pub mod hub;
pub mod message;
pub mod relay;
pub mod text;

pub use codec::FrameError;
pub use message::Message;
