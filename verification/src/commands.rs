//! The Telnet command vocabulary of RFC 854.

use vstd::prelude::*;

verus! {

/// Telnet commands occupying the single-byte command space 0xf0 to 0xff,
/// with a catch-all variant carrying any other byte.
///
/// These are the bytes that may follow a lone IAC on the wire. WILL, WONT,
/// DO, DONT and SB open negotiation and subnegotiation frames rather than
/// standing alone, but every value of the command space is representable.
#[derive(Copy, Clone, Debug, PartialEq, Eq, Structural)]
pub enum TelnetCommand {
    /// End of subnegotiation parameters.
    Se,
    /// No operation.
    Nop,
    /// The data stream portion of a Synch.
    DataMark,
    /// NVT character BRK.
    Break,
    /// Suspend, interrupt or abort the process the NVT is connected to.
    InterruptProcess,
    /// Let the current process run to completion but discard its output.
    AbortOutput,
    /// Ask the receiver to send back visible evidence it is still there.
    AreYouThere,
    /// Ask the recipient to delete the last preceding undeleted character.
    EraseCharacter,
    /// Ask the recipient to delete the current line of input.
    EraseLine,
    /// The Go Ahead signal.
    GoAhead,
    /// Start of a subnegotiation of the indicated option.
    Sb,
    /// Negotiation: sender wants to enable an option on its side.
    Will,
    /// Negotiation: sender refuses to enable an option on its side.
    Wont,
    /// Negotiation: sender asks the peer to enable an option.
    Do,
    /// Negotiation: sender asks the peer to disable an option.
    Dont,
    /// Interpret As Command, doubled on the wire to mean a literal 0xff.
    Iac,
    /// Some other Telnet command not listed, carrying its raw byte.
    Other(u8),
}

/// The wire byte that stands for a command.
pub open spec fn spec_command_byte(c: TelnetCommand) -> u8 {
    match c {
        TelnetCommand::Se => 0xf0,
        TelnetCommand::Nop => 0xf1,
        TelnetCommand::DataMark => 0xf2,
        TelnetCommand::Break => 0xf3,
        TelnetCommand::InterruptProcess => 0xf4,
        TelnetCommand::AbortOutput => 0xf5,
        TelnetCommand::AreYouThere => 0xf6,
        TelnetCommand::EraseCharacter => 0xf7,
        TelnetCommand::EraseLine => 0xf8,
        TelnetCommand::GoAhead => 0xf9,
        TelnetCommand::Sb => 0xfa,
        TelnetCommand::Will => 0xfb,
        TelnetCommand::Wont => 0xfc,
        TelnetCommand::Do => 0xfd,
        TelnetCommand::Dont => 0xfe,
        TelnetCommand::Iac => 0xff,
        TelnetCommand::Other(b) => b,
    }
}

/// The command a wire byte stands for.
pub open spec fn spec_command_from_byte(b: u8) -> TelnetCommand {
    if b == 0xf0 {
        TelnetCommand::Se
    } else if b == 0xf1 {
        TelnetCommand::Nop
    } else if b == 0xf2 {
        TelnetCommand::DataMark
    } else if b == 0xf3 {
        TelnetCommand::Break
    } else if b == 0xf4 {
        TelnetCommand::InterruptProcess
    } else if b == 0xf5 {
        TelnetCommand::AbortOutput
    } else if b == 0xf6 {
        TelnetCommand::AreYouThere
    } else if b == 0xf7 {
        TelnetCommand::EraseCharacter
    } else if b == 0xf8 {
        TelnetCommand::EraseLine
    } else if b == 0xf9 {
        TelnetCommand::GoAhead
    } else if b == 0xfa {
        TelnetCommand::Sb
    } else if b == 0xfb {
        TelnetCommand::Will
    } else if b == 0xfc {
        TelnetCommand::Wont
    } else if b == 0xfd {
        TelnetCommand::Do
    } else if b == 0xfe {
        TelnetCommand::Dont
    } else if b == 0xff {
        TelnetCommand::Iac
    } else {
        TelnetCommand::Other(b)
    }
}

impl TelnetCommand {
    /// The wire byte of this command.
    pub fn byte(self) -> (b: u8)
        ensures
            b == spec_command_byte(self),
    {
        match self {
            TelnetCommand::Se => 0xf0,
            TelnetCommand::Nop => 0xf1,
            TelnetCommand::DataMark => 0xf2,
            TelnetCommand::Break => 0xf3,
            TelnetCommand::InterruptProcess => 0xf4,
            TelnetCommand::AbortOutput => 0xf5,
            TelnetCommand::AreYouThere => 0xf6,
            TelnetCommand::EraseCharacter => 0xf7,
            TelnetCommand::EraseLine => 0xf8,
            TelnetCommand::GoAhead => 0xf9,
            TelnetCommand::Sb => 0xfa,
            TelnetCommand::Will => 0xfb,
            TelnetCommand::Wont => 0xfc,
            TelnetCommand::Do => 0xfd,
            TelnetCommand::Dont => 0xfe,
            TelnetCommand::Iac => 0xff,
            TelnetCommand::Other(b) => b,
        }
    }

    /// The command a wire byte stands for.
    pub fn from_byte(b: u8) -> (c: TelnetCommand)
        ensures
            c == spec_command_from_byte(b),
    {
        if b == 0xf0 {
            TelnetCommand::Se
        } else if b == 0xf1 {
            TelnetCommand::Nop
        } else if b == 0xf2 {
            TelnetCommand::DataMark
        } else if b == 0xf3 {
            TelnetCommand::Break
        } else if b == 0xf4 {
            TelnetCommand::InterruptProcess
        } else if b == 0xf5 {
            TelnetCommand::AbortOutput
        } else if b == 0xf6 {
            TelnetCommand::AreYouThere
        } else if b == 0xf7 {
            TelnetCommand::EraseCharacter
        } else if b == 0xf8 {
            TelnetCommand::EraseLine
        } else if b == 0xf9 {
            TelnetCommand::GoAhead
        } else if b == 0xfa {
            TelnetCommand::Sb
        } else if b == 0xfb {
            TelnetCommand::Will
        } else if b == 0xfc {
            TelnetCommand::Wont
        } else if b == 0xfd {
            TelnetCommand::Do
        } else if b == 0xfe {
            TelnetCommand::Dont
        } else if b == 0xff {
            TelnetCommand::Iac
        } else {
            TelnetCommand::Other(b)
        }
    }
}

/// The byte-to-command mapping is total and the command-to-byte mapping
/// undoes it: every byte of the command space is representable, and encoding
/// a decoded command, the unknown ones included, reproduces the wire byte.
pub proof fn lemma_command_byte_round_trip(b: u8)
    ensures
        spec_command_byte(spec_command_from_byte(b)) == b,
{
}

/// Decoding the byte of a command gives the command back, as long as an
/// `Other` value does not masquerade as a byte of the named command space.
pub proof fn lemma_command_from_byte_round_trip(c: TelnetCommand)
    requires
        c matches TelnetCommand::Other(b) ==> !(0xf0 <= b <= 0xff),
    ensures
        spec_command_from_byte(spec_command_byte(c)) == c,
{
}

} // verus!
