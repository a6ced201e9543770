//! Error types for the Telnet codec.

use vstd::prelude::*;

verus! {

/// The reason a decode step rejected its input.
#[derive(Copy, Clone, Debug, PartialEq, Eq, Structural)]
pub enum DecodeErrorKind {
    /// An IAC byte was not followed by a second IAC: the value found after it,
    /// or `None` when the input ended right after the IAC.
    UnescapedIac(Option<u8>),
    /// A NAWS subnegotiation payload did not hold exactly four bytes.
    NawsPayloadLength,
    /// A terminal-type subnegotiation payload did not start with IS or SEND.
    TerminalTypePrefix,
}

/// Error type used throughout this crate.
#[derive(Copy, Clone, Debug, PartialEq, Eq, Structural)]
pub enum TellyError {
    /// The underlying byte channel failed.
    IoError,
    /// A write to the channel accepted fewer bytes than were handed to it.
    DidNotWriteAllBytes,
    /// Malformed Telnet data was decoded.
    DecodeError(DecodeErrorKind),
    /// A value outside an enumeration was met where strictness is required.
    ConversionError,
}

/// Result type used throughout this crate.
pub type TellyResult<T> = Result<T, TellyError>;

} // verus!
