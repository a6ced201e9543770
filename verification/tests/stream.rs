//! Tests for the stream adapter's verified half: events serialized to wire
//! bytes and fed back through the receiver reproduce themselves, and an
//! exhausted channel ends the event sequence.

use telly::StreamStep;
use telly::TelnetCommand;
use telly::TelnetEvent;
use telly::TelnetOption;
use telly::TelnetParser;
use telly::TelnetReceiver;
use telly::TelnetSubnegotiation;
use telly::UnparsedTelnetSubnegotiation;

fn loopback() -> TelnetReceiver {
    TelnetReceiver::new(TelnetParser::default())
}

#[test]
fn send_string() {
    let mut receiver = loopback();
    let test_string = "Hello World!";
    // Sending a string escapes it without newline transcoding.
    let wire = telly::utils::escape_iacs(test_string.as_bytes());

    match receiver.on_read(&wire) {
        StreamStep::Event(TelnetEvent::Data(data)) => {
            assert_eq!(String::from_utf8_lossy(&data).to_string(), test_string);
        }
        _ => {
            panic!("Received telnet command but should have received data");
        }
    }
}

#[test]
fn send_events() {
    let mut receiver = loopback();

    let events = [
        TelnetEvent::Data(vec![0x42]),
        TelnetEvent::Data(vec![0x42, 0xFF, 0x41]),
        TelnetEvent::Data(vec![0x42, 0xFF]),
        TelnetEvent::Data(vec![0xFF]),
        TelnetEvent::Data(vec![0xFF, 0xFF]),
        TelnetEvent::Command(TelnetCommand::Nop),
        TelnetEvent::will(TelnetOption::SuppressGoAhead),
        TelnetEvent::dont(TelnetOption::TimingMark),
        TelnetEvent::wont(TelnetOption::BinaryTransmission),
        TelnetEvent::Subnegotiation(UnparsedTelnetSubnegotiation {
            option: TelnetOption::BinaryTransmission,
            bytes: vec![0xde, 0xad, 0xbe, 0xef],
        }),
        TelnetSubnegotiation::TerminalTypeResponse("xterm-turbo-edition".into()).into(),
    ];

    for event in events {
        let wire = event.clone().into_bytes();
        assert_eq!(receiver.on_read(&wire), StreamStep::Event(event));
    }
    assert_eq!(receiver.on_read(&[]), StreamStep::End);
}

#[test]
fn do_negotiation_round_trips() {
    let mut receiver = loopback();
    let event = TelnetEvent::do_(TelnetOption::NegotiateAboutWindowSize);
    let wire = event.clone().into_bytes();
    assert_eq!(wire, vec![0xff, 0xfd, 31]);
    assert_eq!(receiver.on_read(&wire), StreamStep::Event(event));
}

#[test]
fn data_with_embedded_iac_is_doubled_on_the_wire() {
    let event = TelnetEvent::Data(vec![0x42, 0xFF, 0x41]);
    let wire = event.clone().into_bytes();
    assert_eq!(wire, vec![0x42, 0xFF, 0xFF, 0x41]);

    let mut receiver = loopback();
    assert_eq!(receiver.on_read(&wire), StreamStep::Event(event));
}

#[test]
fn short_reads_deliver_one_event_per_decode() {
    let mut receiver = loopback();
    // A negotiation split over single-byte reads: the first two chunks are
    // not enough for an event.
    assert_eq!(receiver.on_read(&[0xff]), StreamStep::NeedMore);
    assert_eq!(receiver.on_read(&[0xfb]), StreamStep::NeedMore);
    assert_eq!(
        receiver.on_read(&[1]),
        StreamStep::Event(TelnetEvent::will(TelnetOption::Echo))
    );
    assert_eq!(receiver.try_next(), None);
}

#[test]
fn zero_length_read_with_pending_partial_frame() {
    let mut receiver = loopback();
    // A dangling negotiation cannot complete, so even at the end of the
    // channel it produces no event; the sequence simply ends.
    assert_eq!(receiver.on_read(&[0xff, 0xfb]), StreamStep::NeedMore);
    assert_eq!(receiver.on_read(&[]), StreamStep::End);
}

#[test]
fn empty_channel_ends_immediately() {
    let mut receiver = loopback();
    assert_eq!(receiver.try_next(), None);
    assert_eq!(receiver.on_read(&[]), StreamStep::End);
}
