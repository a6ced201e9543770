//! Byte-stream transforms: IAC byte-stuffing and NVT newline transcoding.
//!
//! Each transform exists twice: as a spec function over byte sequences, the
//! reference for every contract in this crate, and as a restartable streaming
//! producer over an owned buffer, consumed one byte at a time with `next`.
//! The free functions at the bottom run a whole buffer through a transform.

use vstd::prelude::*;

use crate::constants;
use crate::errors::DecodeErrorKind;
use crate::errors::TellyError;
use crate::errors::TellyResult;

verus! {

/// The input with every IAC byte doubled and all other bytes unchanged.
pub open spec fn spec_escape_iacs(s: Seq<u8>) -> Seq<u8>
    decreases s.len(),
{
    if s.len() == 0 {
        Seq::empty()
    } else if s[0] == constants::IAC {
        seq![constants::IAC, constants::IAC] + spec_escape_iacs(s.skip(1))
    } else {
        seq![s[0]] + spec_escape_iacs(s.skip(1))
    }
}

/// The inverse of [`spec_escape_iacs`]: every IAC must be followed by a
/// second IAC, and the pair collapses to one literal 0xff. A lone IAC fails
/// with the byte found after it, or with `None` when the input ends there.
pub open spec fn spec_unescape_iacs(s: Seq<u8>) -> Result<Seq<u8>, DecodeErrorKind>
    decreases s.len(),
{
    if s.len() == 0 {
        Ok(Seq::empty())
    } else if s[0] == constants::IAC {
        if s.len() == 1 {
            Err(DecodeErrorKind::UnescapedIac(None))
        } else if s[1] == constants::IAC {
            match spec_unescape_iacs(s.skip(2)) {
                Ok(r) => Ok(seq![constants::IAC] + r),
                Err(e) => Err(e),
            }
        } else {
            Err(DecodeErrorKind::UnescapedIac(Some(s[1])))
        }
    } else {
        match spec_unescape_iacs(s.skip(1)) {
            Ok(r) => Ok(seq![s[0]] + r),
            Err(e) => Err(e),
        }
    }
}

/// Newline transcoding towards the wire: a carriage return becomes CR NUL
/// and a line feed becomes CR LF, as the NVT requires; other bytes pass.
pub open spec fn spec_expand_newlines(s: Seq<u8>) -> Seq<u8>
    decreases s.len(),
{
    if s.len() == 0 {
        Seq::empty()
    } else if s[0] == constants::CR {
        seq![constants::CR, constants::NUL] + spec_expand_newlines(s.skip(1))
    } else if s[0] == constants::LF {
        seq![constants::CR, constants::LF] + spec_expand_newlines(s.skip(1))
    } else {
        seq![s[0]] + spec_expand_newlines(s.skip(1))
    }
}

/// Newline transcoding from the wire: CR LF collapses to LF, a NUL anywhere
/// is dropped as the NVT no-op byte, and a CR not followed by LF passes as a
/// bare CR; other bytes pass.
pub open spec fn spec_collapse_newlines(s: Seq<u8>) -> Seq<u8>
    decreases s.len(),
{
    if s.len() == 0 {
        Seq::empty()
    } else if s[0] == constants::NUL {
        spec_collapse_newlines(s.skip(1))
    } else if s[0] == constants::CR && s.len() >= 2 && s[1] == constants::LF {
        seq![constants::LF] + spec_collapse_newlines(s.skip(2))
    } else {
        seq![s[0]] + spec_collapse_newlines(s.skip(1))
    }
}

/// The full outbound transform: IAC escaping composed with newline expansion.
pub open spec fn spec_unix_to_nvt(s: Seq<u8>) -> Seq<u8> {
    spec_expand_newlines(spec_escape_iacs(s))
}

/// The full inbound transform: newline collapsing composed with IAC
/// unescaping. Fails exactly where the unescaping does.
pub open spec fn spec_nvt_to_unix(s: Seq<u8>) -> Result<Seq<u8>, DecodeErrorKind> {
    spec_unescape_iacs(spec_collapse_newlines(s))
}

/// Streaming producer of [`spec_escape_iacs`] over an owned buffer.
pub struct EscapeIacs {
    input: Vec<u8>,
    pos: usize,
    escape_next: bool,
}

impl EscapeIacs {
    /// The bytes this producer has yet to emit.
    pub closed spec fn remaining(&self) -> Seq<u8> {
        (if self.escape_next {
            seq![constants::IAC]
        } else {
            Seq::empty()
        }) + spec_escape_iacs(self.input@.skip(self.pos as int))
    }

    /// The producer's position never leaves its buffer.
    pub closed spec fn wf(&self) -> bool {
        self.pos <= self.input.len()
    }

    /// A fresh producer that will emit the escaping of `input`.
    pub fn from_bytes(input: Vec<u8>) -> (it: EscapeIacs)
        ensures
            it.wf(),
            it.remaining() == spec_escape_iacs(input@),
    {
        let it = EscapeIacs { input, pos: 0, escape_next: false };
        proof {
            assert(it.input@.skip(0) =~= it.input@);
            assert(it.remaining() =~= spec_escape_iacs(it.input@));
        }
        it
    }

    /// Emits the next escaped byte, or `None` once the output is exhausted.
    pub fn next(&mut self) -> (r: Option<u8>)
        requires
            old(self).wf(),
        ensures
            final(self).wf(),
            old(self).remaining().len() == 0 ==> r is None && final(self).remaining()
                == old(self).remaining(),
            old(self).remaining().len() > 0 ==> r == Some(old(self).remaining()[0])
                && final(self).remaining() == old(self).remaining().skip(1),
    {
        if self.escape_next {
            self.escape_next = false;
            proof {
                assert(old(self).remaining().skip(1) =~= self.remaining());
            }
            Some(constants::IAC)
        } else if self.pos < self.input.len() {
            let b = self.input[self.pos];
            self.pos = self.pos + 1;
            if b == constants::IAC {
                self.escape_next = true;
            }
            proof {
                assert(old(self).input@.skip(old(self).pos as int).skip(1) =~= self.input@.skip(
                    self.pos as int,
                ));
                assert(old(self).remaining().skip(1) =~= self.remaining());
            }
            Some(b)
        } else {
            proof {
                assert(self.input@.skip(self.pos as int) =~= Seq::<u8>::empty());
            }
            None
        }
    }
}

/// Streaming producer of [`spec_unescape_iacs`] over an owned buffer. Each
/// produced element is itself a result, so a consumer may stop at the first
/// failure or skip over it.
pub struct UnescapeIacs {
    input: Vec<u8>,
    pos: usize,
}

impl UnescapeIacs {
    /// The wire bytes this producer has yet to examine.
    pub closed spec fn remaining(&self) -> Seq<u8> {
        self.input@.skip(self.pos as int)
    }

    /// The producer's position never leaves its buffer.
    pub closed spec fn wf(&self) -> bool {
        self.pos <= self.input.len()
    }

    /// A fresh producer that will emit the unescaping of `input`.
    pub fn from_bytes(input: Vec<u8>) -> (it: UnescapeIacs)
        ensures
            it.wf(),
            it.remaining() == input@,
    {
        let it = UnescapeIacs { input, pos: 0 };
        proof {
            assert(it.remaining() =~= it.input@);
        }
        it
    }

    /// Emits the next unescaped byte, an error where the escaping is
    /// malformed, or `None` once the input is exhausted. An IAC pair is
    /// consumed whole; so are a lone IAC and the offending byte after it.
    pub fn next(&mut self) -> (r: Option<Result<u8, TellyError>>)
        requires
            old(self).wf(),
        ensures
            final(self).wf(),
            ({
                let m = old(self).remaining();
                if m.len() == 0 {
                    r is None && final(self).remaining() == m
                } else if m[0] != constants::IAC {
                    r == Some(Ok::<u8, TellyError>(m[0])) && final(self).remaining() == m.skip(1)
                } else if m.len() == 1 {
                    r == Some(
                        Err::<u8, TellyError>(
                            TellyError::DecodeError(DecodeErrorKind::UnescapedIac(None)),
                        ),
                    ) && final(self).remaining() == m.skip(1)
                } else if m[1] == constants::IAC {
                    r == Some(Ok::<u8, TellyError>(constants::IAC)) && final(self).remaining()
                        == m.skip(2)
                } else {
                    r == Some(
                        Err::<u8, TellyError>(
                            TellyError::DecodeError(DecodeErrorKind::UnescapedIac(Some(m[1]))),
                        ),
                    ) && final(self).remaining() == m.skip(2)
                }
            }),
    {
        proof {
            assert(old(self).remaining().len() == self.input.len() - self.pos);
        }
        if self.pos >= self.input.len() {
            None
        } else {
            let b = self.input[self.pos];
            self.pos = self.pos + 1;
            if b == constants::IAC {
                if self.pos >= self.input.len() {
                    proof {
                        assert(final(self).remaining() =~= old(self).remaining().skip(1));
                    }
                    Some(Err(TellyError::DecodeError(DecodeErrorKind::UnescapedIac(None))))
                } else {
                    let nb = self.input[self.pos];
                    self.pos = self.pos + 1;
                    proof {
                        assert(final(self).remaining() =~= old(self).remaining().skip(2));
                    }
                    if nb == constants::IAC {
                        Some(Ok(constants::IAC))
                    } else {
                        Some(Err(TellyError::DecodeError(DecodeErrorKind::UnescapedIac(Some(nb)))))
                    }
                }
            } else {
                proof {
                    assert(final(self).remaining() =~= old(self).remaining().skip(1));
                }
                Some(Ok(b))
            }
        }
    }
}

/// Streaming producer of the full outbound transform [`spec_unix_to_nvt`]:
/// IAC escaping layered under newline expansion.
pub struct UnixToNvt {
    inner: EscapeIacs,
    produce_null: bool,
    produce_newline: bool,
}

impl UnixToNvt {
    /// The wire bytes this producer has yet to emit.
    pub closed spec fn remaining(&self) -> Seq<u8> {
        (if self.produce_null {
            seq![constants::NUL]
        } else if self.produce_newline {
            seq![constants::LF]
        } else {
            Seq::empty()
        }) + spec_expand_newlines(self.inner.remaining())
    }

    /// The inner producer is well formed and at most one byte is pending.
    pub closed spec fn wf(&self) -> bool {
        self.inner.wf() && !(self.produce_null && self.produce_newline)
    }

    /// A fresh producer that will emit the outbound transform of `input`.
    pub fn from_bytes(input: Vec<u8>) -> (it: UnixToNvt)
        ensures
            it.wf(),
            it.remaining() == spec_unix_to_nvt(input@),
    {
        let ghost v = input@;
        let it = UnixToNvt {
            inner: EscapeIacs::from_bytes(input),
            produce_null: false,
            produce_newline: false,
        };
        proof {
            assert(it.remaining() =~= spec_unix_to_nvt(v));
        }
        it
    }

    /// Emits the next transformed byte, or `None` once the output is
    /// exhausted.
    pub fn next(&mut self) -> (r: Option<u8>)
        requires
            old(self).wf(),
        ensures
            final(self).wf(),
            old(self).remaining().len() == 0 ==> r is None && final(self).remaining()
                == old(self).remaining(),
            old(self).remaining().len() > 0 ==> r == Some(old(self).remaining()[0])
                && final(self).remaining() == old(self).remaining().skip(1),
    {
        if self.produce_null {
            self.produce_null = false;
            proof {
                assert(old(self).remaining().skip(1) =~= self.remaining());
            }
            Some(constants::NUL)
        } else if self.produce_newline {
            self.produce_newline = false;
            proof {
                assert(old(self).remaining().skip(1) =~= self.remaining());
            }
            Some(constants::LF)
        } else {
            match self.inner.next() {
                None => {
                    None
                },
                Some(b) => {
                    if b == constants::CR {
                        self.produce_null = true;
                    } else if b == constants::LF {
                        self.produce_newline = true;
                    }
                    proof {
                        assert(old(self).remaining().skip(1) =~= self.remaining());
                    }
                    if b == constants::LF {
                        Some(constants::CR)
                    } else {
                        Some(b)
                    }
                },
            }
        }
    }
}

/// Streaming producer of [`spec_collapse_newlines`] over an owned buffer:
/// the newline-collapsing half of the inbound transform, with a one-byte
/// pushback for the lookahead after a carriage return.
pub struct NvtToUnix {
    input: Vec<u8>,
    pos: usize,
    buffer: Option<u8>,
}

impl NvtToUnix {
    /// The bytes this producer has yet to examine, pushback first.
    pub closed spec fn pending(&self) -> Seq<u8> {
        (match self.buffer {
            Some(b) => seq![b],
            None => Seq::empty(),
        }) + self.input@.skip(self.pos as int)
    }

    /// The bytes this producer has yet to emit.
    pub closed spec fn remaining(&self) -> Seq<u8> {
        spec_collapse_newlines(self.pending())
    }

    /// The producer's position never leaves its buffer.
    pub closed spec fn wf(&self) -> bool {
        self.pos <= self.input.len()
    }

    /// How many bytes are left to examine; the measure that shrinks as the
    /// producer advances.
    pub closed spec fn unread(&self) -> int {
        self.input.len() - self.pos + (if self.buffer is Some {
            1int
        } else {
            0int
        })
    }

    /// A fresh producer that will emit the newline collapsing of `input`.
    pub fn from_bytes(input: Vec<u8>) -> (it: NvtToUnix)
        ensures
            it.wf(),
            it.remaining() == spec_collapse_newlines(input@),
    {
        let it = NvtToUnix { input, pos: 0, buffer: None };
        proof {
            assert(it.pending() =~= it.input@);
        }
        it
    }

    /// Emits the next collapsed byte, or `None` once the output is
    /// exhausted.
    pub fn next(&mut self) -> (r: Option<u8>)
        requires
            old(self).wf(),
        ensures
            final(self).wf(),
            old(self).remaining().len() == 0 ==> r is None && final(self).remaining()
                == old(self).remaining(),
            old(self).remaining().len() > 0 ==> r == Some(old(self).remaining()[0])
                && final(self).remaining() == old(self).remaining().skip(1),
        decreases self.unread(),
    {
        let b_opt: Option<u8> = match self.buffer {
            Some(b) => {
                self.buffer = None;
                Some(b)
            },
            None => {
                if self.pos < self.input.len() {
                    let b = self.input[self.pos];
                    self.pos = self.pos + 1;
                    Some(b)
                } else {
                    None
                }
            },
        };
        let ghost mid = *self;
        proof {
            if b_opt is Some {
                assert(old(self).pending() =~= seq![b_opt->0] + mid.pending());
            } else {
                assert(old(self).pending() =~= Seq::<u8>::empty());
            }
        }
        match b_opt {
            None => {
                None
            },
            Some(b) => {
                proof {
                    assert(old(self).pending()[0] == b);
                    assert(old(self).pending().skip(1) =~= mid.pending());
                }
                if b == constants::NUL {
                    proof {
                        assert(old(self).remaining() == mid.remaining());
                    }
                    self.next()
                } else if b == constants::CR {
                    if self.pos < self.input.len() {
                        let nb = self.input[self.pos];
                        self.pos = self.pos + 1;
                        proof {
                            assert(mid.pending()[0] == nb);
                            assert(old(self).pending()[1] == nb);
                        }
                        if nb == constants::LF {
                            proof {
                                assert(old(self).pending().skip(2) =~= self.pending());
                                assert(old(self).remaining() == seq![constants::LF]
                                    + self.remaining());
                                assert(old(self).remaining().skip(1) =~= self.remaining());
                            }
                            Some(constants::LF)
                        } else {
                            self.buffer = Some(nb);
                            proof {
                                assert(mid.pending() =~= self.pending());
                                assert(old(self).remaining() == seq![constants::CR]
                                    + self.remaining());
                                assert(old(self).remaining().skip(1) =~= self.remaining());
                            }
                            Some(constants::CR)
                        }
                    } else {
                        proof {
                            assert(mid.pending() =~= Seq::<u8>::empty());
                            assert(old(self).remaining() == seq![constants::CR]
                                + self.remaining());
                            assert(old(self).remaining().skip(1) =~= self.remaining());
                        }
                        Some(constants::CR)
                    }
                } else {
                    proof {
                        assert(old(self).remaining() == seq![b] + self.remaining());
                        assert(old(self).remaining().skip(1) =~= self.remaining());
                    }
                    Some(b)
                }
            },
        }
    }
}

/// Escapes a whole buffer: every IAC byte is doubled, as the Telnet RFC
/// requires of literal 0xff bytes in data.
pub fn escape_iacs(bytes: &[u8]) -> (r: Vec<u8>)
    ensures
        r@ == spec_escape_iacs(bytes@),
{
    let mut it = EscapeIacs::from_bytes(vstd::slice::slice_to_vec(bytes));
    let mut out: Vec<u8> = Vec::new();
    loop
        invariant
            it.wf(),
            out@ + it.remaining() == spec_escape_iacs(bytes@),
        ensures
            out@ == spec_escape_iacs(bytes@),
        decreases it.remaining().len(),
    {
        match it.next() {
            Some(b) => {
                out.push(b);
                proof {
                    assert(out@ + it.remaining() =~= spec_escape_iacs(bytes@));
                }
            },
            None => {
                proof {
                    assert(out@ =~= spec_escape_iacs(bytes@));
                }
                break ;
            },
        }
    }
    out
}

/// Unescapes a whole buffer, stopping at the first malformed escape: an IAC
/// not followed by a second IAC fails with the offending byte.
pub fn unescape_iacs(bytes: &[u8]) -> (r: TellyResult<Vec<u8>>)
    ensures
        match spec_unescape_iacs(bytes@) {
            Ok(s) => r matches Ok(v) && v@ == s,
            Err(k) => r == Err::<Vec<u8>, TellyError>(TellyError::DecodeError(k)),
        },
{
    let mut it = UnescapeIacs::from_bytes(vstd::slice::slice_to_vec(bytes));
    let mut out: Vec<u8> = Vec::new();
    loop
        invariant
            it.wf(),
            spec_unescape_iacs(bytes@) == match spec_unescape_iacs(it.remaining()) {
                Ok(s) => Ok::<Seq<u8>, DecodeErrorKind>(out@ + s),
                Err(k) => Err::<Seq<u8>, DecodeErrorKind>(k),
            },
        ensures
            spec_unescape_iacs(bytes@) matches Ok(s) && out@ == s,
        decreases it.remaining().len(),
    {
        let ghost m = it.remaining();
        match it.next() {
            Some(Ok(b)) => {
                proof {
                    if m[0] != constants::IAC {
                        assert(m.skip(1) == it.remaining());
                    } else {
                        assert(m.skip(2) == it.remaining());
                    }
                    match spec_unescape_iacs(it.remaining()) {
                        Ok(s) => {
                            assert(out@ + (seq![b] + s) =~= out@.push(b) + s);
                        },
                        Err(_) => {},
                    }
                }
                out.push(b);
            },
            Some(Err(e)) => {
                return Err(e);
            },
            None => {
                proof {
                    assert(out@ + Seq::<u8>::empty() =~= out@);
                }
                break ;
            },
        }
    }
    Ok(out)
}

/// The full outbound transform over a whole buffer: IAC escaping, then NVT
/// newline expansion (LF to CR LF, bare CR to CR NUL).
pub fn unix_to_nvt(bytes: &[u8]) -> (r: Vec<u8>)
    ensures
        r@ == spec_unix_to_nvt(bytes@),
{
    let mut it = UnixToNvt::from_bytes(vstd::slice::slice_to_vec(bytes));
    let mut out: Vec<u8> = Vec::new();
    loop
        invariant
            it.wf(),
            out@ + it.remaining() == spec_unix_to_nvt(bytes@),
        ensures
            out@ == spec_unix_to_nvt(bytes@),
        decreases it.remaining().len(),
    {
        match it.next() {
            Some(b) => {
                out.push(b);
                proof {
                    assert(out@ + it.remaining() =~= spec_unix_to_nvt(bytes@));
                }
            },
            None => {
                proof {
                    assert(out@ =~= spec_unix_to_nvt(bytes@));
                }
                break ;
            },
        }
    }
    out
}

/// The full inbound transform over a whole buffer: NVT newline collapsing
/// (CR LF to LF, NUL dropped), then IAC unescaping, stopping at the first
/// malformed escape.
pub fn nvt_to_unix(bytes: &[u8]) -> (r: TellyResult<Vec<u8>>)
    ensures
        match spec_nvt_to_unix(bytes@) {
            Ok(s) => r matches Ok(v) && v@ == s,
            Err(k) => r == Err::<Vec<u8>, TellyError>(TellyError::DecodeError(k)),
        },
{
    let mut it = NvtToUnix::from_bytes(vstd::slice::slice_to_vec(bytes));
    let mut collapsed: Vec<u8> = Vec::new();
    loop
        invariant
            it.wf(),
            collapsed@ + it.remaining() == spec_collapse_newlines(bytes@),
        ensures
            collapsed@ == spec_collapse_newlines(bytes@),
        decreases it.remaining().len(),
    {
        match it.next() {
            Some(b) => {
                collapsed.push(b);
                proof {
                    assert(collapsed@ + it.remaining() =~= spec_collapse_newlines(bytes@));
                }
            },
            None => {
                proof {
                    assert(collapsed@ =~= spec_collapse_newlines(bytes@));
                }
                break ;
            },
        }
    }
    unescape_iacs(collapsed.as_slice())
}

/// Unescaping undoes escaping: for every byte sequence, doubling the IAC
/// bytes and then collapsing the pairs reproduces the sequence exactly, and
/// never fails.
pub proof fn lemma_unescape_escape(s: Seq<u8>)
    ensures
        spec_unescape_iacs(spec_escape_iacs(s)) == Ok::<Seq<u8>, DecodeErrorKind>(s),
    decreases s.len(),
{
    if s.len() == 0 {
        assert(spec_escape_iacs(s) =~= Seq::<u8>::empty());
        assert(s =~= Seq::<u8>::empty());
    } else if s[0] == constants::IAC {
        lemma_unescape_escape(s.skip(1));
        assert(spec_escape_iacs(s).skip(2) =~= spec_escape_iacs(s.skip(1)));
        assert(seq![constants::IAC] + s.skip(1) =~= s);
    } else {
        lemma_unescape_escape(s.skip(1));
        assert(spec_escape_iacs(s).skip(1) =~= spec_escape_iacs(s.skip(1)));
        assert(seq![s[0]] + s.skip(1) =~= s);
    }
}

/// Escaping only repeats bytes of its input: a byte value absent from the
/// input is absent from the escaped output too.
pub proof fn lemma_escape_preserves_absence(s: Seq<u8>, x: u8)
    requires
        forall|i: int| 0 <= i < s.len() ==> s[i] != x,
    ensures
        forall|i: int| 0 <= i < spec_escape_iacs(s).len() ==> spec_escape_iacs(s)[i] != x,
    decreases s.len(),
{
    if s.len() == 0 {
    } else {
        assert(forall|i: int| 0 <= i < s.skip(1).len() ==> s.skip(1)[i] == s[i + 1]);
        lemma_escape_preserves_absence(s.skip(1), x);
        let e = spec_escape_iacs(s);
        let tail = spec_escape_iacs(s.skip(1));
        assert forall|i: int| 0 <= i < e.len() implies e[i] != x by {
            if s[0] == constants::IAC {
                assert(i >= 2 ==> e[i] == tail[i - 2]);
            } else {
                assert(i >= 1 ==> e[i] == tail[i - 1]);
            }
        }
    }
}

/// Newline expansion changes nothing in a sequence that holds neither CR
/// nor LF.
pub proof fn lemma_expand_identity(s: Seq<u8>)
    requires
        forall|i: int| 0 <= i < s.len() ==> s[i] != constants::CR && s[i] != constants::LF,
    ensures
        spec_expand_newlines(s) == s,
    decreases s.len(),
{
    if s.len() == 0 {
        assert(spec_expand_newlines(s) =~= s);
    } else {
        assert(forall|i: int| 0 <= i < s.skip(1).len() ==> s.skip(1)[i] == s[i + 1]);
        lemma_expand_identity(s.skip(1));
        assert(spec_expand_newlines(s) =~= s);
    }
}

/// Collapsing undoes expansion: for a NUL-free byte sequence, transcoding
/// the newlines towards the wire and back reproduces the sequence exactly.
pub proof fn lemma_collapse_expand(s: Seq<u8>)
    requires
        forall|i: int| 0 <= i < s.len() ==> s[i] != constants::NUL,
    ensures
        spec_collapse_newlines(spec_expand_newlines(s)) == s,
    decreases s.len(),
{
    if s.len() == 0 {
        assert(spec_collapse_newlines(spec_expand_newlines(s)) =~= s);
    } else {
        assert(forall|i: int| 0 <= i < s.skip(1).len() ==> s.skip(1)[i] == s[i + 1]);
        lemma_collapse_expand(s.skip(1));
        let e = spec_expand_newlines(s);
        if s[0] == constants::CR {
            assert(e[0] == constants::CR && e[1] == constants::NUL && e.len() >= 2);
            assert(e.skip(1) =~= seq![constants::NUL] + spec_expand_newlines(s.skip(1)));
            assert(e.skip(1).skip(1) =~= spec_expand_newlines(s.skip(1)));
            assert(spec_collapse_newlines(e.skip(1)) == s.skip(1));
            assert(spec_collapse_newlines(e) == seq![constants::CR] + s.skip(1));
            assert(seq![constants::CR] + s.skip(1) =~= s);
        } else if s[0] == constants::LF {
            assert(e.skip(2) =~= spec_expand_newlines(s.skip(1)));
            assert(spec_collapse_newlines(e) == seq![constants::LF] + s.skip(1));
            assert(seq![constants::LF] + s.skip(1) =~= s);
        } else {
            assert(e.skip(1) =~= spec_expand_newlines(s.skip(1)));
            assert(spec_collapse_newlines(e) == seq![s[0]] + s.skip(1));
            assert(seq![s[0]] + s.skip(1) =~= s);
        }
    }
}

/// The inbound transform undoes the outbound one: for every byte sequence
/// without a NUL byte, `nvt_to_unix` applied to `unix_to_nvt` reproduces
/// the sequence exactly, and never fails.
pub proof fn lemma_nvt_round_trip(s: Seq<u8>)
    requires
        forall|i: int| 0 <= i < s.len() ==> s[i] != constants::NUL,
    ensures
        spec_nvt_to_unix(spec_unix_to_nvt(s)) == Ok::<Seq<u8>, DecodeErrorKind>(s),
{
    lemma_escape_preserves_absence(s, constants::NUL);
    lemma_collapse_expand(spec_escape_iacs(s));
    lemma_unescape_escape(s);
}

} // verus!
