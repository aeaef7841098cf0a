//! Voice input over a streaming speech-recognition service.
//!
//! The library holds the protocol of the service and every decision around
//! it: how envelopes are written and read, how a response is classified,
//! how a session moves through its handshake and its two pumps, and what
//! the settings of the application ask for. It performs no input or output
//! of its own; a caller owns the connection, the clock and the files.

pub mod client;
pub mod config;
pub mod constants;
pub mod control;
pub mod credential;
pub mod device;
pub mod encoder;
pub mod floating_button;
pub mod hotkey;
pub mod json;
pub mod protocol;
pub mod response;
pub mod session;
pub mod text;
pub mod text_inserter;
pub mod wire;
