//! The incremental frame decoder: scans a receive buffer and extracts the
//! next complete event, leaving unconsumed bytes at its head.
//!
//! [`spec_decode`] is the reference semantics: given the buffer contents it
//! names the next event and how many bytes produced it, or `None` when no
//! complete event is available yet. [`TelnetParser::next_event`] is proved
//! to implement it exactly, consuming the named prefix on success and
//! leaving the buffer untouched otherwise.

use vstd::prelude::*;

use crate::buffer::buf_advance;
use crate::buffer::buf_byte_at;
use crate::buffer::buf_bytes;
use crate::buffer::buf_len;
use crate::commands::spec_command_from_byte;
use crate::commands::TelnetCommand;
use crate::constants;
use crate::telnet::spec_negotiation_from;
use crate::telnet::spec_option_from_byte;
use crate::telnet::TelnetEvent;
use crate::telnet::TelnetEventView;
use crate::telnet::TelnetNegotiation;
use crate::telnet::TelnetOption;
use crate::telnet::UnparsedTelnetSubnegotiation;

verus! {

/// Whether a command byte opens a negotiation frame.
pub open spec fn spec_is_negotiation_command(b: u8) -> bool {
    b == constants::WILL || b == constants::WONT || b == constants::DO || b == constants::DONT
}

/// The option byte of a negotiation or subnegotiation frame and how many
/// bytes it took: one plain byte, or two when the first is an IAC, whose
/// escape processing swallows it and takes the next byte as the option.
/// `None` when the buffer ends before the option byte.
pub open spec fn spec_option_unit(rest: Seq<u8>) -> Option<(u8, int)> {
    if rest.len() == 0 {
        None
    } else if rest[0] != constants::IAC {
        Some((rest[0], 1int))
    } else if rest.len() == 1 {
        None
    } else {
        Some((rest[1], 2int))
    }
}

/// The data state: accumulates bytes into `acc` until the buffer runs out,
/// which emits the accumulated data eagerly, or until an IAC transition,
/// which ends the event just before the IAC. An IAC pair stands for one
/// literal 0xff; a buffer ending in a lone IAC yields no event, so the
/// dangling escape is kept for the next call. With `translate`, NUL bytes
/// are dropped as the NVT no-op. The count returned is how many bytes of
/// `rest` were consumed.
pub open spec fn spec_scan_data(translate: bool, rest: Seq<u8>, acc: Seq<u8>) -> Option<
    (TelnetEventView, int),
>
    decreases rest.len(),
{
    if rest.len() == 0 {
        Some((TelnetEventView::Data(acc), 0int))
    } else if rest[0] == constants::IAC {
        if rest.len() == 1 {
            None
        } else if rest[1] == constants::IAC {
            match spec_scan_data(translate, rest.skip(2), acc.push(constants::IAC)) {
                Some((e, n)) => Some((e, n + 2)),
                None => None,
            }
        } else {
            Some((TelnetEventView::Data(acc), 0int))
        }
    } else {
        let acc2 = if translate && rest[0] == constants::NUL {
            acc
        } else {
            acc.push(rest[0])
        };
        match spec_scan_data(translate, rest.skip(1), acc2) {
            Some((e, n)) => Some((e, n + 1)),
            None => None,
        }
    }
}

/// The subnegotiation state, after the option byte: accumulates payload
/// bytes into `acc` until an IAC SE pair ends the frame. An IAC pair stands
/// for one literal 0xff; an IAC before any other byte is dropped and that
/// byte is kept. A buffer that ends before the closing IAC SE yields no
/// event. The count returned is how many bytes of `rest` were consumed.
pub open spec fn spec_scan_subneg(option: TelnetOption, rest: Seq<u8>, acc: Seq<u8>) -> Option<
    (TelnetEventView, int),
>
    decreases rest.len(),
{
    if rest.len() == 0 {
        None
    } else if rest[0] == constants::IAC {
        if rest.len() == 1 {
            None
        } else if rest[1] == constants::SE {
            Some((TelnetEventView::Subnegotiation(option, acc), 2int))
        } else {
            // Keeps the byte after the IAC whether it is the second IAC of
            // an escaped pair or any other byte under a dropped IAC.
            match spec_scan_subneg(option, rest.skip(2), acc.push(rest[1])) {
                Some((e, n)) => Some((e, n + 2)),
                None => None,
            }
        }
    } else {
        match spec_scan_subneg(option, rest.skip(1), acc.push(rest[0])) {
            Some((e, n)) => Some((e, n + 1)),
            None => None,
        }
    }
}

/// The next complete event in the buffer and how many bytes produced it,
/// or `None` when the bytes so far form no complete event. A buffer not
/// opening with IAC is data; IAC IAC opens data with a literal 0xff; IAC
/// with WILL, WONT, DO or DONT and an option byte is a negotiation; IAC SB
/// opens a subnegotiation; IAC with any other byte is that stand-alone
/// command.
pub open spec fn spec_decode(translate: bool, s: Seq<u8>) -> Option<(TelnetEventView, int)> {
    if s.len() == 0 {
        None
    } else if s[0] == constants::IAC {
        if s.len() == 1 {
            None
        } else if s[1] == constants::IAC {
            match spec_scan_data(translate, s.skip(2), seq![constants::IAC]) {
                Some((e, n)) => Some((e, n + 2)),
                None => None,
            }
        } else if spec_is_negotiation_command(s[1]) {
            match spec_option_unit(s.skip(2)) {
                Some((ob, n)) => Some(
                    (
                        TelnetEventView::Negotiation(
                            spec_negotiation_from(s[1], spec_option_from_byte(ob)),
                        ),
                        n + 2,
                    ),
                ),
                None => None,
            }
        } else if s[1] == constants::SB {
            match spec_option_unit(s.skip(2)) {
                Some((ob, n)) => {
                    match spec_scan_subneg(
                        spec_option_from_byte(ob),
                        s.skip(2 + n),
                        Seq::empty(),
                    ) {
                        Some((e, m)) => Some((e, 2 + n + m)),
                        None => None,
                    }
                },
                None => None,
            }
        } else {
            Some((TelnetEventView::Command(spec_command_from_byte(s[1])), 2int))
        }
    } else {
        match spec_scan_data(translate, s.skip(1), seq![s[0]]) {
            Some((e, n)) => Some((e, n + 1)),
            None => None,
        }
    }
}

/// Runs the data state over the buffer from `start`, with `acc` already
/// accumulated. On an event, the count returned is the absolute position
/// the buffer is consumed up to.
#[verifier::loop_isolation(false)]
fn scan_data(translate: bool, b: &bytes::BytesMut, start: usize, acc: Vec<u8>) -> (r: Option<
    (TelnetEvent, usize),
>)
    requires
        start <= buf_bytes(*b).len(),
    ensures
        match spec_scan_data(translate, buf_bytes(*b).skip(start as int), acc@) {
            None => r is None,
            Some((ev, n)) => r matches Some(p) && p.0@ == ev && p.1 == n + start,
        },
{
    let ghost s = buf_bytes(*b);
    let ghost acc0 = acc@;
    let len = buf_len(b);
    let mut i = start;
    let mut acc = acc;
    loop
        invariant
            start <= i <= len,
            len == s.len(),
            s == buf_bytes(*b),
            spec_scan_data(translate, s.skip(start as int), acc0) == match spec_scan_data(
                translate,
                s.skip(i as int),
                acc@,
            ) {
                Some((e, n)) => Some((e, n + i - start)),
                None => None,
            },
        decreases len - i,
    {
        if i >= len {
            proof {
                assert(s.skip(i as int) =~= Seq::<u8>::empty());
            }
            return Some((TelnetEvent::Data(acc), i));
        }
        let b0 = buf_byte_at(b, i);
        proof {
            assert(s.skip(i as int)[0] == s[i as int]);
        }
        if b0 == constants::IAC {
            if i + 1 >= len {
                proof {
                    assert(s.skip(i as int).len() == 1);
                }
                return None;
            }
            let b1 = buf_byte_at(b, i + 1);
            proof {
                assert(s.skip(i as int)[1] == s[i as int + 1]);
            }
            if b1 == constants::IAC {
                acc.push(constants::IAC);
                proof {
                    assert(s.skip(i as int).skip(2) =~= s.skip(i as int + 2));
                    match spec_scan_data(translate, s.skip(i as int + 2), acc@) {
                        Some(_) => {},
                        None => {},
                    }
                }
                i = i + 2;
            } else {
                return Some((TelnetEvent::Data(acc), i));
            }
        } else {
            if !(translate && b0 == constants::NUL) {
                acc.push(b0);
            }
            proof {
                assert(s.skip(i as int).skip(1) =~= s.skip(i as int + 1));
                match spec_scan_data(translate, s.skip(i as int + 1), acc@) {
                    Some(_) => {},
                    None => {},
                }
            }
            i = i + 1;
        }
    }
}

/// Runs the subnegotiation state over the buffer from `start`, for a frame
/// addressed to `option`, with `acc` already accumulated. On an event, the
/// count returned is the absolute position the buffer is consumed up to.
#[verifier::loop_isolation(false)]
fn scan_subneg(b: &bytes::BytesMut, option: TelnetOption, start: usize, acc: Vec<u8>) -> (r: Option<
    (TelnetEvent, usize),
>)
    requires
        start <= buf_bytes(*b).len(),
    ensures
        match spec_scan_subneg(option, buf_bytes(*b).skip(start as int), acc@) {
            None => r is None,
            Some((ev, n)) => r matches Some(p) && p.0@ == ev && p.1 == n + start,
        },
{
    let ghost s = buf_bytes(*b);
    let ghost acc0 = acc@;
    let len = buf_len(b);
    let mut i = start;
    let mut acc = acc;
    loop
        invariant
            start <= i <= len,
            len == s.len(),
            s == buf_bytes(*b),
            spec_scan_subneg(option, s.skip(start as int), acc0) == match spec_scan_subneg(
                option,
                s.skip(i as int),
                acc@,
            ) {
                Some((e, n)) => Some((e, n + i - start)),
                None => None,
            },
        decreases len - i,
    {
        if i >= len {
            proof {
                assert(s.skip(i as int) =~= Seq::<u8>::empty());
            }
            return None;
        }
        let b0 = buf_byte_at(b, i);
        proof {
            assert(s.skip(i as int)[0] == s[i as int]);
        }
        if b0 == constants::IAC {
            if i + 1 >= len {
                proof {
                    assert(s.skip(i as int).len() == 1);
                }
                return None;
            }
            let b1 = buf_byte_at(b, i + 1);
            proof {
                assert(s.skip(i as int)[1] == s[i as int + 1]);
            }
            if b1 == constants::SE {
                let event = TelnetEvent::Subnegotiation(
                    UnparsedTelnetSubnegotiation::new(option, acc),
                );
                return Some((event, i + 2));
            } else {
                acc.push(b1);
                proof {
                    assert(s.skip(i as int).skip(2) =~= s.skip(i as int + 2));
                    match spec_scan_subneg(option, s.skip(i as int + 2), acc@) {
                        Some(_) => {},
                        None => {},
                    }
                }
                i = i + 2;
            }
        } else {
            acc.push(b0);
            proof {
                assert(s.skip(i as int).skip(1) =~= s.skip(i as int + 1));
                match spec_scan_subneg(option, s.skip(i as int + 1), acc@) {
                    Some(_) => {},
                    None => {},
                }
            }
            i = i + 1;
        }
    }
}

/// Reads the option byte of a negotiation or subnegotiation frame starting
/// at `start`. On success, the count returned is the absolute position the
/// buffer is consumed up to.
fn read_option_unit(b: &bytes::BytesMut, start: usize) -> (r: Option<(u8, usize)>)
    requires
        start <= buf_bytes(*b).len(),
    ensures
        match spec_option_unit(buf_bytes(*b).skip(start as int)) {
            None => r is None,
            Some((ob, n)) => r matches Some(p) && p.0 == ob && p.1 == n + start,
        },
{
    let ghost s = buf_bytes(*b);
    let len = buf_len(b);
    if start >= len {
        proof {
            assert(s.skip(start as int) =~= Seq::<u8>::empty());
        }
        return None;
    }
    let b0 = buf_byte_at(b, start);
    proof {
        assert(s.skip(start as int)[0] == s[start as int]);
    }
    if b0 != constants::IAC {
        Some((b0, start + 1))
    } else if start + 1 >= len {
        proof {
            assert(s.skip(start as int).len() == 1);
        }
        None
    } else {
        let b1 = buf_byte_at(b, start + 1);
        proof {
            assert(s.skip(start as int)[1] == s[start as int + 1]);
        }
        Some((b1, start + 2))
    }
}

/// The stateless Telnet parser: its one setting says whether NUL bytes in
/// data are dropped as the NVT no-op.
pub struct TelnetParser {
    translate: bool,
}

impl Default for TelnetParser {
    /// A parser with NVT translation enabled, the default.
    fn default() -> (r: TelnetParser)
        ensures
            r.is_translating(),
    {
        TelnetParser { translate: true }
    }
}

impl TelnetParser {
    /// Whether NUL bytes arriving in data are dropped.
    pub closed spec fn is_translating(&self) -> bool {
        self.translate
    }

    /// A parser with NVT translation as given.
    pub fn new(translate: bool) -> (r: TelnetParser)
        ensures
            r.is_translating() == translate,
    {
        TelnetParser { translate }
    }

    /// Finds the next complete event in the buffer without consuming
    /// anything; on success the count returned is how many bytes produced
    /// the event.
    fn decode(&self, b: &bytes::BytesMut) -> (r: Option<(TelnetEvent, usize)>)
        ensures
            match spec_decode(self.is_translating(), buf_bytes(*b)) {
                None => r is None,
                Some((ev, n)) => r matches Some(p) && p.0@ == ev && p.1 == n,
            },
    {
        let ghost s = buf_bytes(*b);
        let len = buf_len(b);
        if len == 0 {
            return None;
        }
        let b0 = buf_byte_at(b, 0);
        if b0 == constants::IAC {
            if len == 1 {
                return None;
            }
            let b1 = buf_byte_at(b, 1);
            if b1 == constants::IAC {
                let mut acc: Vec<u8> = Vec::new();
                acc.push(constants::IAC);
                proof {
                    assert(acc@ =~= seq![constants::IAC]);
                }
                scan_data(self.translate, b, 2, acc)
            } else if b1 == constants::WILL || b1 == constants::WONT || b1 == constants::DO || b1
                == constants::DONT {
                match read_option_unit(b, 2) {
                    None => None,
                    Some((ob, m)) => {
                        let option = TelnetOption::from_byte(ob);
                        let negotiation = if b1 == constants::WILL {
                            TelnetNegotiation::Will(option)
                        } else if b1 == constants::WONT {
                            TelnetNegotiation::Wont(option)
                        } else if b1 == constants::DO {
                            TelnetNegotiation::Do(option)
                        } else {
                            TelnetNegotiation::Dont(option)
                        };
                        Some((TelnetEvent::Negotiation(negotiation), m))
                    },
                }
            } else if b1 == constants::SB {
                match read_option_unit(b, 2) {
                    None => None,
                    Some((ob, m)) => {
                        let option = TelnetOption::from_byte(ob);
                        scan_subneg(b, option, m, Vec::new())
                    },
                }
            } else {
                Some((TelnetEvent::Command(TelnetCommand::from_byte(b1)), 2))
            }
        } else {
            let mut acc: Vec<u8> = Vec::new();
            acc.push(b0);
            proof {
                assert(acc@ =~= seq![s[0]]);
            }
            scan_data(self.translate, b, 1, acc)
        }
    }

    /// Pulls the next complete event out of the receive buffer, if one is
    /// available. On success the buffer is advanced exactly past the bytes
    /// that produced the event; otherwise it is left untouched, so the
    /// caller can append more bytes and retry the same frame.
    pub fn next_event(&self, rx_buffer: &mut bytes::BytesMut) -> (r: Option<TelnetEvent>)
        ensures
            match spec_decode(self.is_translating(), buf_bytes(*old(rx_buffer))) {
                None => r is None && buf_bytes(*final(rx_buffer)) == buf_bytes(*old(rx_buffer)),
                Some((ev, n)) => r matches Some(e) && e@ == ev && buf_bytes(*final(rx_buffer))
                    == buf_bytes(*old(rx_buffer)).skip(n),
            },
    {
        let found = self.decode(rx_buffer);
        match found {
            None => None,
            Some((event, advancement)) => {
                proof {
                    lemma_decode_consumption_bounds(self.is_translating(), buf_bytes(*rx_buffer));
                }
                buf_advance(rx_buffer, advancement);
                Some(event)
            },
        }
    }
}

/// A decoded event consumes at least one byte and never more than the
/// buffer holds: on every event the buffer strictly shrinks, and advancing
/// past the consumed prefix stays in bounds.
pub proof fn lemma_decode_consumption_bounds(translate: bool, s: Seq<u8>)
    ensures
        spec_decode(translate, s) matches Some((ev, n)) ==> 1 <= n <= s.len(),
{
    if s.len() == 0 {
    } else if s[0] == constants::IAC {
        if s.len() == 1 {
        } else if s[1] == constants::IAC {
            lemma_scan_data_consumes_no_more(translate, s.skip(2), seq![constants::IAC]);
        } else if s[1] == constants::SB {
            match spec_option_unit(s.skip(2)) {
                Some((ob, n)) => {
                    lemma_scan_subneg_consumes_no_more(
                        spec_option_from_byte(ob),
                        s.skip(2 + n),
                        Seq::empty(),
                    );
                },
                None => {},
            }
        } else {
        }
    } else {
        lemma_scan_data_consumes_no_more(translate, s.skip(1), seq![s[0]]);
    }
}

/// The data state consumes at most the bytes handed to it.
proof fn lemma_scan_data_consumes_no_more(translate: bool, rest: Seq<u8>, acc: Seq<u8>)
    ensures
        spec_scan_data(translate, rest, acc) matches Some((ev, n)) ==> 0 <= n <= rest.len(),
    decreases rest.len(),
{
    if rest.len() == 0 {
    } else if rest[0] == constants::IAC {
        if rest.len() == 1 {
        } else if rest[1] == constants::IAC {
            lemma_scan_data_consumes_no_more(translate, rest.skip(2), acc.push(constants::IAC));
        } else {
        }
    } else {
        let acc2 = if translate && rest[0] == constants::NUL {
            acc
        } else {
            acc.push(rest[0])
        };
        lemma_scan_data_consumes_no_more(translate, rest.skip(1), acc2);
    }
}

/// The data state undoes escaping: scanning an escaped payload consumes it
/// whole and accumulates the payload unescaped.
proof fn lemma_scan_data_escape(translate: bool, r: Seq<u8>, acc: Seq<u8>)
    requires
        forall|i: int| 0 <= i < r.len() ==> r[i] != constants::NUL,
    ensures
        spec_scan_data(translate, crate::utils::spec_escape_iacs(r), acc) == Some(
            (TelnetEventView::Data(acc + r), crate::utils::spec_escape_iacs(r).len() as int),
        ),
    decreases r.len(),
{
    let e = crate::utils::spec_escape_iacs(r);
    if r.len() == 0 {
        assert(e =~= Seq::<u8>::empty());
        assert(acc + r =~= acc);
    } else {
        assert(forall|i: int| 0 <= i < r.skip(1).len() ==> r.skip(1)[i] == r[i + 1]);
        let tail = crate::utils::spec_escape_iacs(r.skip(1));
        if r[0] == constants::IAC {
            lemma_scan_data_escape(translate, r.skip(1), acc.push(constants::IAC));
            assert(e[0] == constants::IAC && e[1] == constants::IAC);
            assert(e.skip(2) =~= tail);
            assert(acc.push(constants::IAC) + r.skip(1) =~= acc + r);
        } else {
            lemma_scan_data_escape(translate, r.skip(1), acc.push(r[0]));
            assert(e[0] == r[0]);
            assert(e.skip(1) =~= tail);
            assert(acc.push(r[0]) + r.skip(1) =~= acc + r);
        }
    }
}

/// Wire round trip for data: serializing a `Data` event doubles every
/// embedded 0xff, and decoding the wire bytes reproduces the event whole,
/// with nothing left in the buffer. This holds of every nonempty payload
/// free of NUL, CR and LF, the bytes the NVT transcoding rewrites: a
/// payload holding a LF, say, is delivered back as CR LF, and an empty
/// payload produces no wire bytes and hence no event.
pub proof fn lemma_data_wire_round_trip(translate: bool, d: Seq<u8>)
    requires
        d.len() > 0,
        forall|i: int|
            0 <= i < d.len() ==> d[i] != constants::NUL && d[i] != constants::CR && d[i]
                != constants::LF,
    ensures
        spec_decode(translate, crate::telnet::spec_event_bytes(TelnetEventView::Data(d))) == Some(
            (
                TelnetEventView::Data(d),
                crate::telnet::spec_event_bytes(TelnetEventView::Data(d)).len() as int,
            ),
        ),
{
    crate::utils::lemma_escape_preserves_absence(d, constants::CR);
    crate::utils::lemma_escape_preserves_absence(d, constants::LF);
    let e = crate::utils::spec_escape_iacs(d);
    crate::utils::lemma_expand_identity(e);
    assert(crate::telnet::spec_event_bytes(TelnetEventView::Data(d)) == e);
    assert(forall|i: int| 0 <= i < d.skip(1).len() ==> d.skip(1)[i] == d[i + 1]);
    let tail = crate::utils::spec_escape_iacs(d.skip(1));
    if d[0] == constants::IAC {
        assert(e[0] == constants::IAC && e[1] == constants::IAC);
        lemma_scan_data_escape(translate, d.skip(1), seq![constants::IAC]);
        assert(e.skip(2) =~= tail);
        assert(seq![constants::IAC] + d.skip(1) =~= d);
    } else {
        assert(e[0] == d[0]);
        lemma_scan_data_escape(translate, d.skip(1), seq![d[0]]);
        assert(e.skip(1) =~= tail);
        assert(seq![d[0]] + d.skip(1) =~= d);
    }
}

/// The subnegotiation state undoes escaping: scanning an escaped payload
/// closed by IAC SE consumes the envelope whole and accumulates the
/// payload unescaped.
proof fn lemma_scan_subneg_escape(option: TelnetOption, b: Seq<u8>, acc: Seq<u8>)
    ensures
        spec_scan_subneg(
            option,
            crate::utils::spec_escape_iacs(b) + seq![constants::IAC, constants::SE],
            acc,
        ) == Some(
            (
                TelnetEventView::Subnegotiation(option, acc + b),
                crate::utils::spec_escape_iacs(b).len() as int + 2,
            ),
        ),
    decreases b.len(),
{
    let e = crate::utils::spec_escape_iacs(b);
    let rest = e + seq![constants::IAC, constants::SE];
    if b.len() == 0 {
        assert(e =~= Seq::<u8>::empty());
        assert(rest =~= seq![constants::IAC, constants::SE]);
        assert(acc + b =~= acc);
    } else if b[0] == constants::IAC {
        lemma_scan_subneg_escape(option, b.skip(1), acc.push(constants::IAC));
        assert(rest[0] == constants::IAC && rest[1] == constants::IAC);
        assert(rest.skip(2) =~= crate::utils::spec_escape_iacs(b.skip(1)) + seq![
            constants::IAC,
            constants::SE,
        ]);
        assert(acc.push(constants::IAC) + b.skip(1) =~= acc + b);
    } else {
        lemma_scan_subneg_escape(option, b.skip(1), acc.push(b[0]));
        assert(rest[0] == b[0]);
        assert(rest.skip(1) =~= crate::utils::spec_escape_iacs(b.skip(1)) + seq![
            constants::IAC,
            constants::SE,
        ]);
        assert(acc.push(b[0]) + b.skip(1) =~= acc + b);
    }
}

/// Wire round trip for whole events: serializing an event and decoding the
/// wire bytes reproduces the event, consuming them whole. This holds of
/// every negotiation, of every subnegotiation whatever its payload, of
/// every command whose byte does not itself open a frame (IAC, SB and the
/// four negotiation commands mean something longer on the wire, and an
/// unknown command must not masquerade as a named one), and of data as
/// [`lemma_data_wire_round_trip`] bounds it.
pub proof fn lemma_event_wire_round_trip(translate: bool, e: TelnetEventView)
    requires
        e matches TelnetEventView::Data(d) ==> d.len() > 0 && (forall|i: int|
            0 <= i < d.len() ==> d[i] != constants::NUL && d[i] != constants::CR && d[i]
                != constants::LF),
        e matches TelnetEventView::Command(c) ==> crate::commands::spec_command_byte(c)
            != constants::IAC && crate::commands::spec_command_byte(c) != constants::SB
            && !spec_is_negotiation_command(crate::commands::spec_command_byte(c)) && (
        c matches TelnetCommand::Other(raw) ==> !(0xf0 <= raw <= 0xff)),
    ensures
        spec_decode(translate, crate::telnet::spec_event_bytes(e)) == Some(
            (e, crate::telnet::spec_event_bytes(e).len() as int),
        ),
{
    let s = crate::telnet::spec_event_bytes(e);
    match e {
        TelnetEventView::Data(d) => {
            lemma_data_wire_round_trip(translate, d);
        },
        TelnetEventView::Command(c) => {
            assert(s[0] == constants::IAC && s[1] == crate::commands::spec_command_byte(c));
            crate::commands::lemma_command_from_byte_round_trip(c);
        },
        TelnetEventView::Negotiation(n) => {
            let option = crate::telnet::spec_negotiation_option(n);
            assert(s[0] == constants::IAC);
            assert(s[1] == crate::telnet::spec_negotiation_command(n));
            assert(s.skip(2) =~= seq![crate::telnet::spec_option_byte(option)]);
            crate::telnet::lemma_option_byte_round_trip(option);
        },
        TelnetEventView::Subnegotiation(option, b) => {
            let tail = crate::utils::spec_escape_iacs(b) + seq![constants::IAC, constants::SE];
            assert(s[0] == constants::IAC && s[1] == constants::SB);
            assert(s[2] == crate::telnet::spec_option_byte(option));
            assert(s.skip(2)[0] == s[2] && s.skip(2).len() >= 2);
            crate::telnet::lemma_option_byte_round_trip(option);
            lemma_scan_subneg_escape(option, b, Seq::empty());
            assert(s.skip(3) =~= tail);
            assert(Seq::<u8>::empty() + b =~= b);
        },
    }
}

/// The subnegotiation state consumes at most the bytes handed to it.
proof fn lemma_scan_subneg_consumes_no_more(option: TelnetOption, rest: Seq<u8>, acc: Seq<u8>)
    ensures
        spec_scan_subneg(option, rest, acc) matches Some((ev, n)) ==> 0 <= n <= rest.len(),
    decreases rest.len(),
{
    if rest.len() == 0 {
    } else if rest[0] == constants::IAC {
        if rest.len() == 1 {
        } else if rest[1] == constants::SE {
        } else {
            lemma_scan_subneg_consumes_no_more(option, rest.skip(2), acc.push(rest[1]));
        }
    } else {
        lemma_scan_subneg_consumes_no_more(option, rest.skip(1), acc.push(rest[0]));
    }
}

} // verus!
