//! A verified codec for the Telnet NVT wire protocol.
//!
//! The crate turns an arbitrarily fragmented byte stream into typed protocol
//! events and typed events back into correctly escaped wire bytes, per RFC 854
//! and the companion RFCs for option negotiation and subnegotiation.

pub mod buffer;
pub mod commands;
pub mod constants;
pub mod errors;
pub mod parser;
pub mod stream;
pub mod telnet;
pub mod utils;

pub use commands::TelnetCommand;
pub use errors::DecodeErrorKind;
pub use errors::TellyError;
pub use errors::TellyResult;
pub use parser::TelnetParser;
pub use stream::StreamStep;
pub use stream::TelnetReceiver;
pub use telnet::TelnetEvent;
pub use telnet::TelnetNegotiation;
pub use telnet::TelnetOption;
pub use telnet::TelnetSubnegotiation;
pub use telnet::UnparsedTelnetSubnegotiation;
