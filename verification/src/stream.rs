//! The verified half of the stream adapter: a receiver owning the receive
//! buffer and a decoder.
//!
//! The receiver performs no I/O. A caller that owns a byte channel reads a
//! bounded chunk whenever the buffer holds no complete event and hands it
//! to [`TelnetReceiver::on_read`], which decides what the read means: an
//! event, a request for more bytes, or the end of the event sequence when
//! the channel is exhausted.

use vstd::prelude::*;

use crate::buffer::buf_bytes;
use crate::buffer::buf_extend;
use crate::buffer::buf_new;
use crate::parser::spec_decode;
use crate::parser::TelnetParser;
use crate::telnet::TelnetEvent;

verus! {

/// What one read from the channel meant for the event sequence.
#[derive(Clone, Debug, PartialEq)]
pub enum StreamStep {
    /// A complete event became available.
    Event(TelnetEvent),
    /// No complete event yet: read more bytes and call again.
    NeedMore,
    /// The channel is exhausted and no complete event is pending: the
    /// event sequence ends here, without an error.
    End,
}

/// The stateful side of a Telnet stream: the receive buffer and the
/// decoder that consumes it.
pub struct TelnetReceiver {
    parser: TelnetParser,
    rx_buffer: bytes::BytesMut,
}

impl TelnetReceiver {
    /// The bytes read from the channel and not yet consumed by an event.
    pub closed spec fn buffered(&self) -> Seq<u8> {
        buf_bytes(self.rx_buffer)
    }

    /// Whether the decoder drops NUL bytes in data as the NVT no-op.
    pub closed spec fn is_translating(&self) -> bool {
        self.parser.is_translating()
    }

    /// A receiver around the given parser, with an empty buffer.
    pub fn new(parser: TelnetParser) -> (r: TelnetReceiver)
        ensures
            r.buffered() == Seq::<u8>::empty(),
            r.is_translating() == parser.is_translating(),
    {
        TelnetReceiver { parser, rx_buffer: buf_new() }
    }

    /// Pulls the next complete event out of what is already buffered, if
    /// one is available; otherwise the buffer is left untouched.
    pub fn try_next(&mut self) -> (r: Option<TelnetEvent>)
        ensures
            final(self).is_translating() == old(self).is_translating(),
            match spec_decode(old(self).is_translating(), old(self).buffered()) {
                None => r is None && final(self).buffered() == old(self).buffered(),
                Some((ev, n)) => r matches Some(e) && e@ == ev && final(self).buffered() == old(
                    self,
                ).buffered().skip(n),
            },
    {
        self.parser.next_event(&mut self.rx_buffer)
    }

    /// Appends one chunk read from the channel and decides what it meant:
    /// the next event as soon as the buffer holds a complete one, a
    /// request for more bytes, or, on a zero-length read with no complete
    /// event pending, the end of the event sequence.
    pub fn on_read(&mut self, chunk: &[u8]) -> (r: StreamStep)
        ensures
            final(self).is_translating() == old(self).is_translating(),
            ({
                let fed = old(self).buffered() + chunk@;
                match spec_decode(old(self).is_translating(), fed) {
                    Some((ev, n)) => r matches StreamStep::Event(e) && e@ == ev
                        && final(self).buffered() == fed.skip(n),
                    None => final(self).buffered() == fed && (if chunk@.len() == 0 {
                        r is End
                    } else {
                        r is NeedMore
                    }),
                }
            }),
    {
        buf_extend(&mut self.rx_buffer, chunk);
        match self.try_next() {
            Some(event) => StreamStep::Event(event),
            None => {
                if chunk.len() == 0 {
                    StreamStep::End
                } else {
                    StreamStep::NeedMore
                }
            },
        }
    }
}

/// An exhausted channel ends the stream: an empty buffer decodes to no
/// event, so a zero-length read with no pending bytes makes `on_read`
/// report the end of the event sequence, not an event and not an error.
pub proof fn lemma_end_of_stream(translate: bool)
    ensures
        spec_decode(translate, Seq::<u8>::empty()) is None,
{
}

} // verus!
