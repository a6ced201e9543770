//! Byte values with a fixed meaning on the Telnet wire.

use vstd::prelude::*;

verus! {

/// The NVT no-op byte, sent after a bare carriage return.
pub const NUL: u8 = 0x00;

/// Line feed.
pub const LF: u8 = 0x0a;

/// Carriage return.
pub const CR: u8 = 0x0d;

/// Prefix of a response payload in some subnegotiations.
pub const IS: u8 = 0x00;

/// Prefix of a request payload in some subnegotiations.
pub const SEND: u8 = 0x01;

/// End of subnegotiation parameters.
pub const SE: u8 = 0xf0;

/// Start of a subnegotiation of the indicated option.
pub const SB: u8 = 0xfa;

/// Option negotiation: sender wants to enable the option on its side.
pub const WILL: u8 = 0xfb;

/// Option negotiation: sender refuses to enable the option on its side.
pub const WONT: u8 = 0xfc;

/// Option negotiation: sender asks the peer to enable the option.
pub const DO: u8 = 0xfd;

/// Option negotiation: sender asks the peer to disable the option.
pub const DONT: u8 = 0xfe;

/// Interpret As Command: precedes every Telnet command, and is sent twice to
/// stand for a literal 0xff data byte.
pub const IAC: u8 = 0xff;

} // verus!
