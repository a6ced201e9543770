//! Tests for the incremental frame decoder.

use bytes::BytesMut;
use telly::TelnetCommand;
use telly::TelnetEvent;
use telly::TelnetNegotiation;
use telly::TelnetOption;
use telly::TelnetParser;
use telly::TelnetSubnegotiation;

const IAC: u8 = 0xff;
const SB: u8 = 0xfa;
const SE: u8 = 0xf0;
const WILL: u8 = 0xfb;

#[test]
fn parse() {
    let test_vectors = vec![
        (
            vec![0xDE, 0xAD, 0xBE, 0xEF, 8],
            vec![TelnetEvent::Data(vec![0xDE, 0xAD, 0xBE, 0xEF, 8])],
        ),
        (
            vec![IAC, WILL, TelnetOption::LineMode.byte(), 0x42],
            vec![
                TelnetEvent::Negotiation(TelnetNegotiation::Will(TelnetOption::LineMode)),
                TelnetEvent::Data(vec![0x42]),
            ],
        ),
        (vec![IAC, WILL], vec![]),
        (vec![], vec![]),
        (vec![IAC], vec![]),
        (vec![IAC, IAC], vec![TelnetEvent::Data(vec![0xff])]),
        (
            vec![
                IAC,
                SB,
                TelnetOption::NegotiateAboutWindowSize.byte(),
                0x00,
                0xCA,
                0x00,
                0xFE,
                IAC,
                SE,
            ],
            vec![TelnetEvent::Subnegotiation(
                TelnetSubnegotiation::NegotiateAboutWindowSize {
                    width: 0xCA,
                    height: 0xFE,
                }
                .to_unparsed(),
            )],
        ),
    ];

    let parser = TelnetParser::default();
    for tv in test_vectors {
        let mut bytes = BytesMut::from(&tv.0[0..tv.0.len()]);
        for expected_event in tv.1 {
            let actual_event = parser.next_event(&mut bytes);
            assert_eq!(actual_event, Some(expected_event));
        }
        assert_eq!(parser.next_event(&mut bytes), None);
    }
}

#[test]
fn partial_negotiation_completes_after_more_input() {
    let parser = TelnetParser::default();
    let mut bytes = BytesMut::from(&[IAC, WILL][..]);
    assert_eq!(parser.next_event(&mut bytes), None);
    // The dangling frame is preserved: appending the option byte completes
    // the negotiation.
    bytes.extend_from_slice(&[TelnetOption::SuppressGoAhead.byte()]);
    assert_eq!(
        parser.next_event(&mut bytes),
        Some(TelnetEvent::Negotiation(TelnetNegotiation::Will(
            TelnetOption::SuppressGoAhead
        )))
    );
    assert_eq!(parser.next_event(&mut bytes), None);
}

#[test]
fn unknown_command_keeps_its_byte() {
    let parser = TelnetParser::default();
    let mut bytes = BytesMut::from(&[IAC, 0x42][..]);
    let event = parser.next_event(&mut bytes);
    assert_eq!(
        event,
        Some(TelnetEvent::Command(TelnetCommand::Other(0x42)))
    );
    // Encoding the unknown command reproduces the original wire bytes.
    assert_eq!(
        TelnetEvent::Command(TelnetCommand::Other(0x42)).into_bytes(),
        vec![IAC, 0x42]
    );
}

#[test]
fn named_commands_parse_and_encode() {
    let parser = TelnetParser::default();
    let mut bytes = BytesMut::from(&[IAC, 0xf1, IAC, 0xf6][..]);
    assert_eq!(
        parser.next_event(&mut bytes),
        Some(TelnetEvent::Command(TelnetCommand::Nop))
    );
    assert_eq!(
        parser.next_event(&mut bytes),
        Some(TelnetEvent::Command(TelnetCommand::AreYouThere))
    );
    assert_eq!(parser.next_event(&mut bytes), None);
    assert_eq!(TelnetCommand::from_byte(TelnetCommand::GoAhead.byte()), TelnetCommand::GoAhead);
}

#[test]
fn translate_drops_nul_bytes_in_data() {
    let parser = TelnetParser::default();
    let mut bytes = BytesMut::from(&[0x41, 0x00, 0x42][..]);
    assert_eq!(
        parser.next_event(&mut bytes),
        Some(TelnetEvent::Data(vec![0x41, 0x42]))
    );
}

#[test]
fn without_translate_nul_bytes_stay() {
    let parser = TelnetParser::new(false);
    let mut bytes = BytesMut::from(&[0x41, 0x00, 0x42][..]);
    assert_eq!(
        parser.next_event(&mut bytes),
        Some(TelnetEvent::Data(vec![0x41, 0x00, 0x42]))
    );
}

#[test]
fn data_ends_before_control_sequence() {
    let parser = TelnetParser::default();
    let mut bytes = BytesMut::from(&[0x41, 0x42, IAC, 0xf1, 0x43][..]);
    assert_eq!(
        parser.next_event(&mut bytes),
        Some(TelnetEvent::Data(vec![0x41, 0x42]))
    );
    assert_eq!(
        parser.next_event(&mut bytes),
        Some(TelnetEvent::Command(TelnetCommand::Nop))
    );
    assert_eq!(
        parser.next_event(&mut bytes),
        Some(TelnetEvent::Data(vec![0x43]))
    );
    assert_eq!(parser.next_event(&mut bytes), None);
}

#[test]
fn escaped_iac_inside_data_is_collapsed() {
    let parser = TelnetParser::default();
    let mut bytes = BytesMut::from(&[0x41, IAC, IAC, 0x42][..]);
    assert_eq!(
        parser.next_event(&mut bytes),
        Some(TelnetEvent::Data(vec![0x41, 0xff, 0x42]))
    );
}

#[test]
fn data_with_trailing_lone_iac_waits() {
    let parser = TelnetParser::default();
    let mut bytes = BytesMut::from(&[0x41, IAC][..]);
    // The dangling escape keeps the whole frame pending.
    assert_eq!(parser.next_event(&mut bytes), None);
    bytes.extend_from_slice(&[IAC]);
    assert_eq!(
        parser.next_event(&mut bytes),
        Some(TelnetEvent::Data(vec![0x41, 0xff]))
    );
}

#[test]
fn subnegotiation_needs_its_terminator() {
    let parser = TelnetParser::default();
    let mut bytes = BytesMut::from(&[IAC, SB, 31, 0x00, 0xCA][..]);
    assert_eq!(parser.next_event(&mut bytes), None);
    bytes.extend_from_slice(&[0x00, 0xFE, IAC, SE]);
    let event = parser.next_event(&mut bytes);
    assert_eq!(
        event,
        Some(TelnetEvent::Subnegotiation(
            telly::UnparsedTelnetSubnegotiation::new(
                TelnetOption::NegotiateAboutWindowSize,
                vec![0x00, 0xCA, 0x00, 0xFE]
            )
        ))
    );
}

#[test]
fn subnegotiation_payload_unescapes_iacs() {
    let parser = TelnetParser::default();
    let mut bytes = BytesMut::from(&[IAC, SB, 0x05, 0x01, IAC, IAC, 0x02, IAC, SE][..]);
    let event = parser.next_event(&mut bytes);
    assert_eq!(
        event,
        Some(TelnetEvent::Subnegotiation(
            telly::UnparsedTelnetSubnegotiation::new(
                TelnetOption::Status,
                vec![0x01, 0xff, 0x02]
            )
        ))
    );
}
