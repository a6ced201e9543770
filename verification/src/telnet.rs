//! The Telnet option, negotiation, subnegotiation and event model, with the
//! encoders from typed values to wire bytes.

use vstd::prelude::*;

use crate::commands::spec_command_byte;
use crate::commands::TelnetCommand;
use crate::constants;
use crate::errors::DecodeErrorKind;
use crate::errors::TellyError;
use crate::errors::TellyResult;
use crate::utils::spec_escape_iacs;
use crate::utils::spec_unix_to_nvt;
use crate::utils::escape_iacs;
use crate::utils::unix_to_nvt;

verus! {

/// Options that follow WILL, DO, DONT, WONT and SB, defined across several
/// RFCs, with a catch-all variant for every other option code.
///
/// Every unknown option byte collapses to the one `Unknown` variant, which
/// maps back to the reserved sentinel 0xfe: of the unknown codes only 0xfe
/// itself survives a round trip through this type.
#[derive(Copy, Clone, Debug, PartialEq, Eq, Structural)]
pub enum TelnetOption {
    /// Binary transmission, RFC 856.
    BinaryTransmission,
    /// Echo, RFC 857.
    Echo,
    /// Reconnection, NIC 15391 of 1973.
    Reconnection,
    /// Suppress Go Ahead, RFC 858.
    SuppressGoAhead,
    /// Approximate message size negotiation, NIC 15393 of 1973.
    ApproxMessageSizeNegotiation,
    /// Status, RFC 859.
    Status,
    /// Timing mark, RFC 860.
    TimingMark,
    /// Logout, RFC 727.
    Logout,
    /// Terminal type, RFC 1091.
    TerminalType,
    /// Negotiate About Window Size, RFC 1073.
    NegotiateAboutWindowSize,
    /// Line mode, RFC 1184.
    LineMode,
    /// Any Telnet option this crate does not know.
    Unknown,
}

/// The option code that stands for an option; `Unknown` maps to the
/// reserved sentinel 0xfe.
pub open spec fn spec_option_byte(o: TelnetOption) -> u8 {
    match o {
        TelnetOption::BinaryTransmission => 0,
        TelnetOption::Echo => 1,
        TelnetOption::Reconnection => 2,
        TelnetOption::SuppressGoAhead => 3,
        TelnetOption::ApproxMessageSizeNegotiation => 4,
        TelnetOption::Status => 5,
        TelnetOption::TimingMark => 6,
        TelnetOption::Logout => 18,
        TelnetOption::TerminalType => 24,
        TelnetOption::NegotiateAboutWindowSize => 31,
        TelnetOption::LineMode => 34,
        TelnetOption::Unknown => 0xfe,
    }
}

/// The option an option code stands for; every code without a name maps to
/// `Unknown`.
pub open spec fn spec_option_from_byte(b: u8) -> TelnetOption {
    if b == 0 {
        TelnetOption::BinaryTransmission
    } else if b == 1 {
        TelnetOption::Echo
    } else if b == 2 {
        TelnetOption::Reconnection
    } else if b == 3 {
        TelnetOption::SuppressGoAhead
    } else if b == 4 {
        TelnetOption::ApproxMessageSizeNegotiation
    } else if b == 5 {
        TelnetOption::Status
    } else if b == 6 {
        TelnetOption::TimingMark
    } else if b == 18 {
        TelnetOption::Logout
    } else if b == 24 {
        TelnetOption::TerminalType
    } else if b == 31 {
        TelnetOption::NegotiateAboutWindowSize
    } else if b == 34 {
        TelnetOption::LineMode
    } else {
        TelnetOption::Unknown
    }
}

impl TelnetOption {
    /// The option code of this option.
    pub fn byte(self) -> (b: u8)
        ensures
            b == spec_option_byte(self),
    {
        match self {
            TelnetOption::BinaryTransmission => 0,
            TelnetOption::Echo => 1,
            TelnetOption::Reconnection => 2,
            TelnetOption::SuppressGoAhead => 3,
            TelnetOption::ApproxMessageSizeNegotiation => 4,
            TelnetOption::Status => 5,
            TelnetOption::TimingMark => 6,
            TelnetOption::Logout => 18,
            TelnetOption::TerminalType => 24,
            TelnetOption::NegotiateAboutWindowSize => 31,
            TelnetOption::LineMode => 34,
            TelnetOption::Unknown => 0xfe,
        }
    }

    /// The option an option code stands for.
    pub fn from_byte(b: u8) -> (o: TelnetOption)
        ensures
            o == spec_option_from_byte(b),
    {
        if b == 0 {
            TelnetOption::BinaryTransmission
        } else if b == 1 {
            TelnetOption::Echo
        } else if b == 2 {
            TelnetOption::Reconnection
        } else if b == 3 {
            TelnetOption::SuppressGoAhead
        } else if b == 4 {
            TelnetOption::ApproxMessageSizeNegotiation
        } else if b == 5 {
            TelnetOption::Status
        } else if b == 6 {
            TelnetOption::TimingMark
        } else if b == 18 {
            TelnetOption::Logout
        } else if b == 24 {
            TelnetOption::TerminalType
        } else if b == 31 {
            TelnetOption::NegotiateAboutWindowSize
        } else if b == 34 {
            TelnetOption::LineMode
        } else {
            TelnetOption::Unknown
        }
    }
}

/// Encoding an option and decoding the code gives the option back, for the
/// named options and for `Unknown` alike.
pub proof fn lemma_option_byte_round_trip(o: TelnetOption)
    ensures
        spec_option_from_byte(spec_option_byte(o)) == o,
{
}

/// An offer or demand about an option being in effect: IAC WILL/WONT/DO/DONT
/// followed by the option code.
#[derive(Copy, Clone, Debug, PartialEq, Eq, Structural)]
pub enum TelnetNegotiation {
    /// Sender wants to enable the option on its side.
    Will(TelnetOption),
    /// Sender refuses to enable the option on its side.
    Wont(TelnetOption),
    /// Sender asks the peer to enable the option.
    Do(TelnetOption),
    /// Sender asks the peer to disable the option.
    Dont(TelnetOption),
}

/// The option a negotiation speaks about.
pub open spec fn spec_negotiation_option(n: TelnetNegotiation) -> TelnetOption {
    match n {
        TelnetNegotiation::Will(o) => o,
        TelnetNegotiation::Wont(o) => o,
        TelnetNegotiation::Do(o) => o,
        TelnetNegotiation::Dont(o) => o,
    }
}

/// The command byte of a negotiation: WILL, WONT, DO or DONT.
pub open spec fn spec_negotiation_command(n: TelnetNegotiation) -> u8 {
    match n {
        TelnetNegotiation::Will(_) => constants::WILL,
        TelnetNegotiation::Wont(_) => constants::WONT,
        TelnetNegotiation::Do(_) => constants::DO,
        TelnetNegotiation::Dont(_) => constants::DONT,
    }
}

/// The negotiation a command byte and an option stand for, for the four
/// negotiation commands.
pub open spec fn spec_negotiation_from(cmd: u8, o: TelnetOption) -> TelnetNegotiation
    recommends
        cmd == constants::WILL || cmd == constants::WONT || cmd == constants::DO || cmd
            == constants::DONT,
{
    if cmd == constants::WILL {
        TelnetNegotiation::Will(o)
    } else if cmd == constants::WONT {
        TelnetNegotiation::Wont(o)
    } else if cmd == constants::DO {
        TelnetNegotiation::Do(o)
    } else {
        TelnetNegotiation::Dont(o)
    }
}

impl TelnetNegotiation {
    /// The option this negotiation speaks about.
    pub fn option(&self) -> (o: TelnetOption)
        ensures
            o == spec_negotiation_option(*self),
    {
        match self {
            TelnetNegotiation::Will(o) => *o,
            TelnetNegotiation::Wont(o) => *o,
            TelnetNegotiation::Do(o) => *o,
            TelnetNegotiation::Dont(o) => *o,
        }
    }

    /// The command byte of this negotiation: WILL, WONT, DO or DONT.
    pub fn command(&self) -> (b: u8)
        ensures
            b == spec_negotiation_command(*self),
    {
        match self {
            TelnetNegotiation::Will(_) => constants::WILL,
            TelnetNegotiation::Wont(_) => constants::WONT,
            TelnetNegotiation::Do(_) => constants::DO,
            TelnetNegotiation::Dont(_) => constants::DONT,
        }
    }
}

/// A yet-to-be-parsed subnegotiation: the option it is addressed to and its
/// raw payload bytes. The canonical, lossless form of any subnegotiation.
#[derive(Clone, Debug, PartialEq)]
pub struct UnparsedTelnetSubnegotiation {
    /// The option this subnegotiation is associated with.
    pub option: TelnetOption,
    /// The raw payload bytes, not yet escaped for the wire.
    pub bytes: Vec<u8>,
}

impl View for UnparsedTelnetSubnegotiation {
    type V = (TelnetOption, Seq<u8>);

    open spec fn view(&self) -> (TelnetOption, Seq<u8>) {
        (self.option, self.bytes@)
    }
}

/// The wire bytes of a subnegotiation frame: the payload, IAC-escaped, in
/// an IAC SB option ... IAC SE envelope.
pub open spec fn spec_subnegotiation_bytes(option: TelnetOption, bytes: Seq<u8>) -> Seq<u8> {
    seq![constants::IAC, constants::SB, spec_option_byte(option)] + spec_escape_iacs(bytes)
        + seq![constants::IAC, constants::SE]
}

impl UnparsedTelnetSubnegotiation {
    /// A subnegotiation of `option` with payload `bytes`.
    pub fn new(option: TelnetOption, bytes: Vec<u8>) -> (r: UnparsedTelnetSubnegotiation)
        ensures
            r@ == (option, bytes@),
    {
        UnparsedTelnetSubnegotiation { option, bytes }
    }

    /// Serializes the subnegotiation for the wire: IAC SB, the option code,
    /// the payload with every IAC doubled, then IAC SE.
    pub fn into_bytes(self) -> (r: Vec<u8>)
        ensures
            r@ == spec_subnegotiation_bytes(self.option, self.bytes@),
    {
        let mut out: Vec<u8> = Vec::new();
        out.push(constants::IAC);
        out.push(constants::SB);
        out.push(self.option.byte());
        let mut escaped = escape_iacs(self.bytes.as_slice());
        out.append(&mut escaped);
        out.push(constants::IAC);
        out.push(constants::SE);
        proof {
            assert(out@ =~= spec_subnegotiation_bytes(self.option, self.bytes@));
        }
        out
    }
}

/// What `String::from_utf8_lossy` returns on bytes that are not valid
/// UTF-8: the text with every invalid sequence replaced. A function of the
/// bytes alone.
pub uninterp spec fn lossy_decode(b: Seq<u8>) -> Seq<char>;

/// Permissive text decoding as `String::from_utf8_lossy` performs it:
/// valid UTF-8 decodes to exactly its text, anything else to the
/// replacement-marked text that [`lossy_decode`] stands for.
pub open spec fn spec_decode_text(b: Seq<u8>) -> Seq<char> {
    if vstd::utf8::valid_utf8(b) {
        vstd::utf8::decode_utf8(b)
    } else {
        lossy_decode(b)
    }
}

/// Relies on `String::from_utf8_lossy`: decodes UTF-8 permissively, valid
/// input to exactly its text and invalid sequences to replacement
/// characters, from the bytes alone.
#[verifier::external_body]
fn utf8_lossy(bytes: &[u8]) -> (r: String)
    ensures
        !vstd::utf8::valid_utf8(bytes@) ==> r@ == lossy_decode(bytes@),
        vstd::utf8::valid_utf8(bytes@) ==> r@ == vstd::utf8::decode_utf8(bytes@),
{
    String::from_utf8_lossy(bytes).into_owned()
}

/// A subnegotiation in decoded, typed form, for the options this crate
/// understands; every other subnegotiation is carried whole in `Other`.
#[derive(Clone, Debug, PartialEq)]
pub enum TelnetSubnegotiation {
    /// Negotiate About Window Size, RFC 1073: the window measured in
    /// characters.
    NegotiateAboutWindowSize {
        /// The width of the window in characters.
        width: u16,
        /// The height of the window in characters.
        height: u16,
    },
    /// A terminal-type request, RFC 1091; the peer answers with a
    /// [`TelnetSubnegotiation::TerminalTypeResponse`].
    TerminalTypeRequest,
    /// A terminal-type response, RFC 1091, carrying the terminal name.
    TerminalTypeResponse(String),
    /// A subnegotiation of an option this crate does not parse.
    Other {
        /// The option the subnegotiation is associated with.
        option: TelnetOption,
        /// Its raw payload bytes.
        bytes: Vec<u8>,
    },
}

/// The ghost form of a typed subnegotiation, with text and bytes as
/// sequences.
pub enum TelnetSubnegotiationView {
    /// Window size in characters.
    NegotiateAboutWindowSize {
        /// The width of the window in characters.
        width: u16,
        /// The height of the window in characters.
        height: u16,
    },
    /// A terminal-type request.
    TerminalTypeRequest,
    /// A terminal-type response carrying the terminal name.
    TerminalTypeResponse(Seq<char>),
    /// A subnegotiation of any other option.
    Other(TelnetOption, Seq<u8>),
}

impl View for TelnetSubnegotiation {
    type V = TelnetSubnegotiationView;

    open spec fn view(&self) -> TelnetSubnegotiationView {
        match self {
            TelnetSubnegotiation::NegotiateAboutWindowSize { width, height } => {
                TelnetSubnegotiationView::NegotiateAboutWindowSize {
                    width: *width,
                    height: *height,
                }
            },
            TelnetSubnegotiation::TerminalTypeRequest => {
                TelnetSubnegotiationView::TerminalTypeRequest
            },
            TelnetSubnegotiation::TerminalTypeResponse(name) => {
                TelnetSubnegotiationView::TerminalTypeResponse(name@)
            },
            TelnetSubnegotiation::Other { option, bytes } => {
                TelnetSubnegotiationView::Other(*option, bytes@)
            },
        }
    }
}

/// Typed decoding of a subnegotiation payload, dispatched on its option: a
/// NAWS payload must hold exactly four bytes, big-endian width then height;
/// a terminal-type payload must begin with SEND or with IS followed by the
/// terminal name; every other option is carried whole and never fails.
pub open spec fn spec_subneg_decode(option: TelnetOption, bytes: Seq<u8>) -> Result<
    TelnetSubnegotiationView,
    DecodeErrorKind,
> {
    if option == TelnetOption::NegotiateAboutWindowSize {
        if bytes.len() != 4 {
            Err(DecodeErrorKind::NawsPayloadLength)
        } else {
            Ok(
                TelnetSubnegotiationView::NegotiateAboutWindowSize {
                    width: (bytes[0] * 256 + bytes[1]) as u16,
                    height: (bytes[2] * 256 + bytes[3]) as u16,
                },
            )
        }
    } else if option == TelnetOption::TerminalType {
        if bytes.len() > 0 && bytes[0] == constants::SEND {
            Ok(TelnetSubnegotiationView::TerminalTypeRequest)
        } else if bytes.len() == 0 || bytes[0] != constants::IS {
            Err(DecodeErrorKind::TerminalTypePrefix)
        } else {
            Ok(TelnetSubnegotiationView::TerminalTypeResponse(spec_decode_text(bytes.skip(1))))
        }
    } else {
        Ok(TelnetSubnegotiationView::Other(option, bytes))
    }
}

/// The inverse direction, total: the option a typed subnegotiation is
/// addressed to and the raw payload bytes it serializes to.
pub open spec fn spec_subneg_encode(t: TelnetSubnegotiationView) -> (TelnetOption, Seq<u8>) {
    match t {
        TelnetSubnegotiationView::NegotiateAboutWindowSize { width, height } => {
            (
                TelnetOption::NegotiateAboutWindowSize,
                seq![
                    (width / 256) as u8,
                    (width % 256) as u8,
                    (height / 256) as u8,
                    (height % 256) as u8,
                ],
            )
        },
        TelnetSubnegotiationView::TerminalTypeRequest => {
            (TelnetOption::TerminalType, seq![constants::SEND])
        },
        TelnetSubnegotiationView::TerminalTypeResponse(name) => {
            (TelnetOption::TerminalType, seq![constants::IS] + vstd::utf8::encode_utf8(name))
        },
        TelnetSubnegotiationView::Other(option, bytes) => (option, bytes),
    }
}

impl TelnetSubnegotiation {
    /// Decodes a generic subnegotiation into its typed form, failing with a
    /// decode error exactly where the payload does not match the shape its
    /// option requires.
    pub fn try_from_unparsed(other: UnparsedTelnetSubnegotiation) -> (r: TellyResult<
        TelnetSubnegotiation,
    >)
        ensures
            match spec_subneg_decode(other.option, other.bytes@) {
                Ok(t) => r matches Ok(v) && v@ == t,
                Err(k) => r == Err::<TelnetSubnegotiation, TellyError>(TellyError::DecodeError(k)),
            },
    {
        let bytes = other.bytes;
        let option = other.option;
        match option {
            TelnetOption::NegotiateAboutWindowSize => {
                if bytes.len() != 4 {
                    return Err(TellyError::DecodeError(DecodeErrorKind::NawsPayloadLength));
                }
                let width: u16 = (bytes[0] as u16) * 256 + (bytes[1] as u16);
                let height: u16 = (bytes[2] as u16) * 256 + (bytes[3] as u16);
                Ok(TelnetSubnegotiation::NegotiateAboutWindowSize { width, height })
            },
            TelnetOption::TerminalType => {
                if bytes.len() > 0 && bytes[0] == constants::SEND {
                    return Ok(TelnetSubnegotiation::TerminalTypeRequest);
                }
                if bytes.len() == 0 || bytes[0] != constants::IS {
                    return Err(TellyError::DecodeError(DecodeErrorKind::TerminalTypePrefix));
                }
                let rest = vstd::slice::slice_subrange(bytes.as_slice(), 1, bytes.len());
                proof {
                    assert(rest@ =~= bytes@.skip(1));
                }
                let term_name = utf8_lossy(rest);
                Ok(TelnetSubnegotiation::TerminalTypeResponse(term_name))
            },
            _ => Ok(TelnetSubnegotiation::Other { option, bytes }),
        }
    }

    /// Serializes the typed form back to the option and raw payload bytes
    /// it stands for. Total: this direction never fails.
    pub fn to_unparsed(self) -> (r: UnparsedTelnetSubnegotiation)
        ensures
            r@ == spec_subneg_encode(self@),
    {
        match self {
            TelnetSubnegotiation::Other { option, bytes } => {
                UnparsedTelnetSubnegotiation { option, bytes }
            },
            TelnetSubnegotiation::NegotiateAboutWindowSize { width, height } => {
                let mut bytes: Vec<u8> = Vec::new();
                bytes.push((width / 256) as u8);
                bytes.push((width % 256) as u8);
                bytes.push((height / 256) as u8);
                bytes.push((height % 256) as u8);
                proof {
                    assert(bytes@ =~= spec_subneg_encode(self@).1);
                }
                UnparsedTelnetSubnegotiation {
                    option: TelnetOption::NegotiateAboutWindowSize,
                    bytes,
                }
            },
            TelnetSubnegotiation::TerminalTypeRequest => {
                let mut bytes: Vec<u8> = Vec::new();
                bytes.push(constants::SEND);
                proof {
                    assert(bytes@ =~= seq![constants::SEND]);
                }
                UnparsedTelnetSubnegotiation { option: TelnetOption::TerminalType, bytes }
            },
            TelnetSubnegotiation::TerminalTypeResponse(term_name) => {
                let mut bytes: Vec<u8> = Vec::new();
                bytes.push(constants::IS);
                let name_bytes = term_name.as_str().as_bytes();
                bytes.extend_from_slice(name_bytes);
                proof {
                    assert(bytes@ =~= seq![constants::IS] + vstd::utf8::encode_utf8(term_name@));
                }
                UnparsedTelnetSubnegotiation { option: TelnetOption::TerminalType, bytes }
            },
        }
    }
}

impl From<TelnetSubnegotiation> for UnparsedTelnetSubnegotiation {
    /// Serializes the typed form; the same conversion as
    /// [`TelnetSubnegotiation::to_unparsed`].
    fn from(other: TelnetSubnegotiation) -> (r: UnparsedTelnetSubnegotiation)
        ensures
            r@ == spec_subneg_encode(other@),
    {
        other.to_unparsed()
    }
}

impl vstd::std_specs::convert::FromSpecImpl<TelnetSubnegotiation> for UnparsedTelnetSubnegotiation {
    open spec fn obeys_from_spec() -> bool {
        // The subnegotiation built here holds a buffer, which spec code
        // cannot construct; the conversion is pinned down by the ensures on
        // `from` instead.
        false
    }

    open spec fn from_spec(v: TelnetSubnegotiation) -> UnparsedTelnetSubnegotiation {
        arbitrary()
    }
}

/// Typed decoding undoes typed encoding: serializing a typed subnegotiation
/// and decoding the result gives the typed value back, whenever an `Other`
/// value does not masquerade as one of the options with a parsed shape.
pub proof fn lemma_subneg_round_trip(t: TelnetSubnegotiationView)
    requires
        t matches TelnetSubnegotiationView::Other(option, _) ==> option
            != TelnetOption::NegotiateAboutWindowSize && option != TelnetOption::TerminalType,
    ensures
        spec_subneg_decode(spec_subneg_encode(t).0, spec_subneg_encode(t).1) == Ok::<
            TelnetSubnegotiationView,
            DecodeErrorKind,
        >(t),
{
    match t {
        TelnetSubnegotiationView::NegotiateAboutWindowSize { width, height } => {
            let b = spec_subneg_encode(t).1;
            assert(b[0] == (width / 256) as u8 && b[1] == (width % 256) as u8);
            assert(b[2] == (height / 256) as u8 && b[3] == (height % 256) as u8);
            assert(width / 256 * 256 + width % 256 == width);
            assert(height / 256 * 256 + height % 256 == height);
        },
        TelnetSubnegotiationView::TerminalTypeRequest => {
        },
        TelnetSubnegotiationView::TerminalTypeResponse(name) => {
            let b = spec_subneg_encode(t).1;
            assert(b.skip(1) =~= vstd::utf8::encode_utf8(name));
            vstd::utf8::encode_utf8_valid_utf8(name);
            vstd::utf8::encode_utf8_decode_utf8(name);
        },
        TelnetSubnegotiationView::Other(_, _) => {
        },
    }
}

/// An event sent over, or to be sent over, Telnet: the unit of exchange
/// between the decoder and its caller, and the unit the encoder consumes.
#[derive(Clone, Debug, PartialEq)]
pub enum TelnetEvent {
    /// A stand-alone Telnet command.
    Command(TelnetCommand),
    /// A negotiation: WILL, WONT, DO or DONT about an option.
    Negotiation(TelnetNegotiation),
    /// A subnegotiation carrying an option-specific payload.
    Subnegotiation(UnparsedTelnetSubnegotiation),
    /// Plain data bytes, not yet NVT-encoded.
    Data(Vec<u8>),
}

/// The ghost form of an event, with payloads as sequences.
pub enum TelnetEventView {
    /// A stand-alone Telnet command.
    Command(TelnetCommand),
    /// A negotiation about an option.
    Negotiation(TelnetNegotiation),
    /// A subnegotiation: its option and raw payload bytes.
    Subnegotiation(TelnetOption, Seq<u8>),
    /// Plain data bytes.
    Data(Seq<u8>),
}

impl View for TelnetEvent {
    type V = TelnetEventView;

    open spec fn view(&self) -> TelnetEventView {
        match self {
            TelnetEvent::Command(c) => TelnetEventView::Command(*c),
            TelnetEvent::Negotiation(n) => TelnetEventView::Negotiation(*n),
            TelnetEvent::Subnegotiation(u) => TelnetEventView::Subnegotiation(u.option, u.bytes@),
            TelnetEvent::Data(d) => TelnetEventView::Data(d@),
        }
    }
}

/// The wire bytes of an event: data runs through the outbound transform;
/// a command is IAC and its byte; a negotiation is IAC, its command byte
/// and its option code; a subnegotiation is its escaped envelope.
pub open spec fn spec_event_bytes(e: TelnetEventView) -> Seq<u8> {
    match e {
        TelnetEventView::Data(d) => spec_unix_to_nvt(d),
        TelnetEventView::Command(c) => seq![constants::IAC, spec_command_byte(c)],
        TelnetEventView::Negotiation(n) => seq![
            constants::IAC,
            spec_negotiation_command(n),
            spec_option_byte(spec_negotiation_option(n)),
        ],
        TelnetEventView::Subnegotiation(option, bytes) => spec_subnegotiation_bytes(option, bytes),
    }
}

impl TelnetEvent {
    /// A DO negotiation event about `option`.
    pub fn do_(option: TelnetOption) -> (r: TelnetEvent)
        ensures
            r == TelnetEvent::Negotiation(TelnetNegotiation::Do(option)),
    {
        TelnetEvent::Negotiation(TelnetNegotiation::Do(option))
    }

    /// A DONT negotiation event about `option`.
    pub fn dont(option: TelnetOption) -> (r: TelnetEvent)
        ensures
            r == TelnetEvent::Negotiation(TelnetNegotiation::Dont(option)),
    {
        TelnetEvent::Negotiation(TelnetNegotiation::Dont(option))
    }

    /// A WILL negotiation event about `option`.
    pub fn will(option: TelnetOption) -> (r: TelnetEvent)
        ensures
            r == TelnetEvent::Negotiation(TelnetNegotiation::Will(option)),
    {
        TelnetEvent::Negotiation(TelnetNegotiation::Will(option))
    }

    /// A WONT negotiation event about `option`.
    pub fn wont(option: TelnetOption) -> (r: TelnetEvent)
        ensures
            r == TelnetEvent::Negotiation(TelnetNegotiation::Wont(option)),
    {
        TelnetEvent::Negotiation(TelnetNegotiation::Wont(option))
    }

    /// Serializes the event to wire bytes: data through the outbound
    /// transform, every other event to its fixed-shape byte sequence.
    pub fn into_bytes(self) -> (r: Vec<u8>)
        ensures
            r@ == spec_event_bytes(self@),
    {
        match self {
            TelnetEvent::Data(data) => unix_to_nvt(data.as_slice()),
            TelnetEvent::Command(command) => {
                let mut out: Vec<u8> = Vec::new();
                out.push(constants::IAC);
                out.push(command.byte());
                proof {
                    assert(out@ =~= spec_event_bytes(self@));
                }
                out
            },
            TelnetEvent::Negotiation(negotiation) => {
                // Whether an option code of 0xff ought to be escaped here is
                // left open by RFC 854; it is sent unescaped.
                let mut out: Vec<u8> = Vec::new();
                out.push(constants::IAC);
                out.push(negotiation.command());
                out.push(negotiation.option().byte());
                proof {
                    assert(out@ =~= spec_event_bytes(self@));
                }
                out
            },
            TelnetEvent::Subnegotiation(subnegotiation) => subnegotiation.into_bytes(),
        }
    }
}

impl From<TelnetSubnegotiation> for TelnetEvent {
    /// Serializes a typed subnegotiation and wraps it as an event.
    fn from(other: TelnetSubnegotiation) -> (r: TelnetEvent)
        ensures
            r@ == TelnetEventView::Subnegotiation(
                spec_subneg_encode(other@).0,
                spec_subneg_encode(other@).1,
            ),
    {
        TelnetEvent::Subnegotiation(other.to_unparsed())
    }
}

impl vstd::std_specs::convert::FromSpecImpl<TelnetSubnegotiation> for TelnetEvent {
    open spec fn obeys_from_spec() -> bool {
        // The event built here holds a buffer, which spec code cannot
        // construct; the conversion is pinned down by the ensures on `from`
        // instead.
        false
    }

    open spec fn from_spec(v: TelnetSubnegotiation) -> TelnetEvent {
        arbitrary()
    }
}

impl From<TelnetNegotiation> for TelnetEvent {
    /// Wraps a negotiation as an event.
    fn from(other: TelnetNegotiation) -> (r: TelnetEvent) {
        TelnetEvent::Negotiation(other)
    }
}

impl vstd::std_specs::convert::FromSpecImpl<TelnetNegotiation> for TelnetEvent {
    open spec fn obeys_from_spec() -> bool {
        true
    }

    open spec fn from_spec(v: TelnetNegotiation) -> TelnetEvent {
        TelnetEvent::Negotiation(v)
    }
}

impl From<TelnetCommand> for TelnetEvent {
    /// Wraps a command as an event.
    fn from(other: TelnetCommand) -> (r: TelnetEvent) {
        TelnetEvent::Command(other)
    }
}

impl vstd::std_specs::convert::FromSpecImpl<TelnetCommand> for TelnetEvent {
    open spec fn obeys_from_spec() -> bool {
        true
    }

    open spec fn from_spec(v: TelnetCommand) -> TelnetEvent {
        TelnetEvent::Command(v)
    }
}

} // verus!
