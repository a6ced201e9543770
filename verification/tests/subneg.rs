//! Tests for the typed subnegotiation codec.

use telly::DecodeErrorKind;
use telly::TellyError;
use telly::TelnetOption;
use telly::TelnetSubnegotiation;
use telly::UnparsedTelnetSubnegotiation;

#[test]
fn naws_decodes_and_round_trips() {
    let unparsed = UnparsedTelnetSubnegotiation::new(
        TelnetOption::NegotiateAboutWindowSize,
        vec![0x00, 0xCA, 0x00, 0xFE],
    );
    let typed = TelnetSubnegotiation::try_from_unparsed(unparsed.clone()).unwrap();
    assert_eq!(
        typed,
        TelnetSubnegotiation::NegotiateAboutWindowSize {
            width: 0xCA,
            height: 0xFE,
        }
    );
    assert_eq!(typed.to_unparsed(), unparsed);
}

#[test]
fn naws_big_endian_fields() {
    let unparsed = UnparsedTelnetSubnegotiation::new(
        TelnetOption::NegotiateAboutWindowSize,
        vec![0x01, 0x02, 0x03, 0x04],
    );
    let typed = TelnetSubnegotiation::try_from_unparsed(unparsed).unwrap();
    assert_eq!(
        typed,
        TelnetSubnegotiation::NegotiateAboutWindowSize {
            width: 0x0102,
            height: 0x0304,
        }
    );
}

#[test]
fn naws_wrong_length_fails() {
    let unparsed =
        UnparsedTelnetSubnegotiation::new(TelnetOption::NegotiateAboutWindowSize, vec![0x00]);
    assert_eq!(
        TelnetSubnegotiation::try_from_unparsed(unparsed),
        Err(TellyError::DecodeError(DecodeErrorKind::NawsPayloadLength))
    );
}

#[test]
fn terminal_type_response_decodes() {
    let unparsed = UnparsedTelnetSubnegotiation::new(
        TelnetOption::TerminalType,
        vec![0x00, b'x', b't', b'e', b'r', b'm'],
    );
    let typed = TelnetSubnegotiation::try_from_unparsed(unparsed).unwrap();
    assert_eq!(
        typed,
        TelnetSubnegotiation::TerminalTypeResponse("xterm".to_string())
    );
}

#[test]
fn terminal_type_request_decodes_and_ignores_trailers() {
    let unparsed = UnparsedTelnetSubnegotiation::new(TelnetOption::TerminalType, vec![0x01]);
    assert_eq!(
        TelnetSubnegotiation::try_from_unparsed(unparsed),
        Ok(TelnetSubnegotiation::TerminalTypeRequest)
    );
    let with_trailer =
        UnparsedTelnetSubnegotiation::new(TelnetOption::TerminalType, vec![0x01, 0x77]);
    assert_eq!(
        TelnetSubnegotiation::try_from_unparsed(with_trailer),
        Ok(TelnetSubnegotiation::TerminalTypeRequest)
    );
}

#[test]
fn terminal_type_bad_prefix_fails() {
    let empty = UnparsedTelnetSubnegotiation::new(TelnetOption::TerminalType, vec![]);
    assert_eq!(
        TelnetSubnegotiation::try_from_unparsed(empty),
        Err(TellyError::DecodeError(DecodeErrorKind::TerminalTypePrefix))
    );
    let bad = UnparsedTelnetSubnegotiation::new(TelnetOption::TerminalType, vec![0x02, b'x']);
    assert_eq!(
        TelnetSubnegotiation::try_from_unparsed(bad),
        Err(TellyError::DecodeError(DecodeErrorKind::TerminalTypePrefix))
    );
}

#[test]
fn terminal_type_encodes_is_prefix_and_name() {
    let typed = TelnetSubnegotiation::TerminalTypeResponse("xterm".to_string());
    let unparsed = typed.to_unparsed();
    assert_eq!(unparsed.option, TelnetOption::TerminalType);
    assert_eq!(unparsed.bytes, vec![0x00, b'x', b't', b'e', b'r', b'm']);

    let request = TelnetSubnegotiation::TerminalTypeRequest.to_unparsed();
    assert_eq!(request.option, TelnetOption::TerminalType);
    assert_eq!(request.bytes, vec![0x01]);
}

#[test]
fn other_options_are_carried_whole() {
    let unparsed = UnparsedTelnetSubnegotiation::new(TelnetOption::LineMode, vec![9, 8, 7]);
    let typed = TelnetSubnegotiation::try_from_unparsed(unparsed.clone()).unwrap();
    assert_eq!(
        typed,
        TelnetSubnegotiation::Other {
            option: TelnetOption::LineMode,
            bytes: vec![9, 8, 7],
        }
    );
    assert_eq!(typed.to_unparsed(), unparsed);
}

#[test]
fn typed_round_trip_from_typed_side() {
    let parsed = TelnetSubnegotiation::NegotiateAboutWindowSize {
        width: 55,
        height: 20,
    };
    let deparsed = parsed.clone().to_unparsed();
    assert_eq!(
        TelnetSubnegotiation::try_from_unparsed(deparsed),
        Ok(parsed)
    );
}

#[test]
fn subnegotiation_wire_envelope() {
    let unparsed = UnparsedTelnetSubnegotiation::new(
        TelnetOption::NegotiateAboutWindowSize,
        vec![0x00, 0xCA, 0x00, 0xFE],
    );
    assert_eq!(
        unparsed.into_bytes(),
        vec![0xff, 0xfa, 31, 0x00, 0xCA, 0x00, 0xFE, 0xff, 0xf0]
    );
    // A payload IAC is doubled inside the envelope.
    let with_iac = UnparsedTelnetSubnegotiation::new(TelnetOption::Status, vec![0xff]);
    assert_eq!(
        with_iac.into_bytes(),
        vec![0xff, 0xfa, 5, 0xff, 0xff, 0xff, 0xf0]
    );
}

#[test]
fn option_bytes_round_trip() {
    let options = [
        TelnetOption::BinaryTransmission,
        TelnetOption::Echo,
        TelnetOption::Reconnection,
        TelnetOption::SuppressGoAhead,
        TelnetOption::ApproxMessageSizeNegotiation,
        TelnetOption::Status,
        TelnetOption::TimingMark,
        TelnetOption::Logout,
        TelnetOption::TerminalType,
        TelnetOption::NegotiateAboutWindowSize,
        TelnetOption::LineMode,
        TelnetOption::Unknown,
    ];
    for option in options {
        assert_eq!(TelnetOption::from_byte(option.byte()), option);
    }
    // Every unknown code collapses to the sentinel; only 0xfe itself
    // survives the reverse direction.
    assert_eq!(TelnetOption::from_byte(0x77), TelnetOption::Unknown);
    assert_eq!(TelnetOption::Unknown.byte(), 0xfe);
}
