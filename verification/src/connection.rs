use vstd::prelude::*;
use vstd::slice::slice_subrange;
use crate::codec::decode_step;
use crate::codec::decoder_fed;
use crate::codec::decoder_idle;
use crate::codec::finish_head;
use crate::codec::head_complete;
use crate::codec::head_end;
use crate::codec::head_prefix_ok;
use crate::codec::head_valid;
use crate::codec::HEAD_INTAKE_LIMIT;
use crate::codec::new_head_decoder;
use crate::codec::parsed_head;
use crate::codec::DecodeStep;
use crate::codec::HeadDecoder;
use crate::error::BadRequestKind;
use crate::error::Error;
use crate::head::Head;
use crate::request::req_outcome;
use crate::request::Req;
use crate::request::ReqView;

verus! {

/// Immutable per-connection configuration, supplied at construction.
pub struct ConnectionOptions {
    /// Capacity of the staging buffer for bytes read from the stream.
    pub read_buf_size: usize,
    /// Capacity reserved for response buffering (kept for configuration
    /// completeness; response transmission is outside this crate).
    pub write_buf_size: usize,
    /// Whether the connection stays open for another request after a
    /// dispatch succeeds.
    pub keepalive: bool,
}

impl ConnectionOptions {
    /// Configuration with every knob explicit.
    pub fn new(read_buf_size: usize, write_buf_size: usize, keepalive: bool) -> (r:
        ConnectionOptions)
        ensures
            r.read_buf_size == read_buf_size,
            r.write_buf_size == write_buf_size,
            r.keepalive == keepalive,
    {
        ConnectionOptions { read_buf_size, write_buf_size, keepalive }
    }
}

impl Default for ConnectionOptions {
    /// 4096-byte buffers and keep-alive on.
    fn default() -> (r: ConnectionOptions)
        ensures
            r.read_buf_size == 4096,
            r.write_buf_size == 4096,
            r.keepalive,
    {
        ConnectionOptions { read_buf_size: 4096, write_buf_size: 4096, keepalive: true }
    }
}

/// A growable staging area holding bytes read from the stream but not
/// yet consumed by the decoder: a fixed-capacity backing store with a
/// read cursor (`head`), a write cursor (`tail`) and an end-of-stream
/// flag.
pub struct ReadBuf {
    /// The backing store; its length is the buffer's fixed capacity.
    pub buf: Vec<u8>,
    /// Next unread offset.
    pub head: usize,
    /// Next write offset.
    pub tail: usize,
    /// True once the stream has signaled that no more bytes will arrive.
    pub eos: bool,
}

impl ReadBuf {
    /// The cursor discipline: `0 <= head <= tail <= capacity`.
    pub open spec fn wf(self) -> bool {
        self.head <= self.tail <= self.buf@.len()
    }

    /// The buffer's fixed capacity.
    pub open spec fn capacity(self) -> nat {
        self.buf@.len()
    }

    /// The bytes received but not yet consumed by the decoder.
    pub open spec fn unread(self) -> Seq<u8> {
        self.buf@.subrange(self.head as int, self.tail as int)
    }

    /// A fresh, empty buffer of the given capacity, zero-filled.
    pub fn new(buf_size: usize) -> (r: ReadBuf)
        ensures
            r.wf(),
            r.capacity() == buf_size,
            r.buf@ == Seq::new(buf_size as nat, |i: int| 0u8),
            r.unread() == Seq::<u8>::empty(),
            r.head == 0,
            r.tail == 0,
            !r.eos,
    {
        let mut buf: Vec<u8> = Vec::new();
        while buf.len() < buf_size
            invariant
                buf@.len() <= buf_size,
                forall|i: int| 0 <= i < buf@.len() ==> buf@[i] == 0u8,
            decreases buf_size - buf@.len(),
        {
            buf.push(0u8);
        }
        let r = ReadBuf { buf, head: 0, tail: 0, eos: false };
        assert(r.buf@ =~= Seq::new(buf_size as nat, |i: int| 0u8));
        assert(r.unread() =~= Seq::<u8>::empty());
        r
    }

    /// Whether the stream has ended.
    pub fn at_eos(&self) -> (r: bool)
        ensures
            r == self.eos,
    {
        self.eos
    }

    /// Whether every received byte has been consumed.
    pub fn is_empty(&self) -> (r: bool)
        requires
            self.wf(),
        ensures
            r == (self.unread().len() == 0),
    {
        self.head == self.tail
    }

    /// How many bytes the tail region can still take.
    pub fn free_len(&self) -> (r: usize)
        requires
            self.wf(),
        ensures
            r == self.capacity() - self.tail,
    {
        self.buf.len() - self.tail
    }

    /// Reclaim space by resetting both cursors to zero, done only when
    /// the buffer is fully drained and capacity has been consumed — the
    /// one mutation of the cursors outside of reading and decoding.
    pub fn compact_if_drained(&mut self)
        requires
            old(self).wf(),
        ensures
            final(self).wf(),
            final(self).capacity() == old(self).capacity(),
            final(self).eos == old(self).eos,
            final(self).buf@ == old(self).buf@,
            final(self).unread() == old(self).unread(),
            old(self).head == old(self).tail && old(self).head != 0 ==> final(self).head == 0
                && final(self).tail == 0,
            !(old(self).head == old(self).tail && old(self).head != 0) ==> final(self).head == old(
                self,
            ).head && final(self).tail == old(self).tail,
    {
        if self.head == self.tail && self.head != 0 {
            self.head = 0;
            self.tail = 0;
            assert(self.unread() =~= old(self).unread());
        }
    }

    /// Record the outcome of one read from the stream: the bytes that
    /// arrived, or — when zero bytes arrived — the end-of-stream signal.
    pub fn note_read(&mut self, data: &[u8])
        requires
            old(self).wf(),
            !old(self).eos,
            data@.len() <= old(self).capacity() - old(self).tail,
        ensures
            final(self).wf(),
            final(self).capacity() == old(self).capacity(),
            final(self).head == old(self).head,
            data@.len() == 0 ==> final(self).eos && final(self).tail == old(self).tail && final(self).unread() == old(
                self,
            ).unread(),
            data@.len() > 0 ==> !final(self).eos && final(self).unread() == old(self).unread() + data@,
    {
        if data.len() == 0 {
            self.eos = true;
            return ;
        }
        self.eos = false;
        let cap = self.buf.len();
        let mut k: usize = 0;
        while k < data.len()
            invariant
                k <= data@.len(),
                data@.len() <= old(self).capacity() - old(self).tail,
                cap == self.buf@.len(),
                self.tail + data@.len() <= cap,
                self.head == old(self).head,
                self.tail == old(self).tail,
                self.eos == old(self).eos || !self.eos,
                self.buf@.len() == old(self).buf@.len(),
                old(self).wf(),
                self.buf@ == old(self).buf@.map(
                    |i: int, b: u8|
                        if old(self).tail <= i < old(self).tail + k {
                            data@[i - old(self).tail]
                        } else {
                            b
                        },
                ),
            decreases data@.len() - k,
        {
            let idx = self.tail + k;
            self.buf[idx] = data[k];
            k = k + 1;
            assert(self.buf@ =~= old(self).buf@.map(
                |i: int, b: u8|
                    if old(self).tail <= i < old(self).tail + k {
                        data@[i - old(self).tail]
                    } else {
                        b
                    },
            ));
        }
        self.tail = self.tail + data.len();
        assert(self.unread() =~= old(self).unread() + data@);
    }

    /// Feed the unread bytes and the end-of-stream flag to the decoder,
    /// advancing the read cursor by exactly the byte count the decoder
    /// consumed; the write cursor and the backing store are untouched,
    /// and on a decode-level error no consumption is recorded (a head
    /// rejected only at finish-time validation has been consumed).
    ///
    /// `Ok(None)` asks for more bytes; `Ok(Some(head))` hands out a
    /// completely decoded, finish-validated head (the decoder is then
    /// spent and must be replaced); the errors classify a truncated
    /// request and an ungrammatical or invalid head apart.
    pub fn decode(&mut self, decoder: &mut HeadDecoder) -> (r: Result<Option<Head>, Error>)
        requires
            old(self).wf(),
            head_prefix_ok(decoder_fed(*old(decoder))),
            head_end(decoder_fed(*old(decoder))) is None,
            decoder_fed(*old(decoder)).len() + old(self).unread().len() <= HEAD_INTAKE_LIMIT,
        ensures
            final(self).wf(),
            final(self).capacity() == old(self).capacity(),
            final(self).eos == old(self).eos,
            final(self).buf@ == old(self).buf@,
            final(self).tail == old(self).tail,
            old(self).head <= final(self).head <= final(self).tail,
            ({
                let fed = decoder_fed(*old(decoder));
                let s = fed + old(self).unread();
                let eos = old(self).eos;
                &&& (!head_prefix_ok(s) ==> r == Err::<Option<Head>, Error>(
                    Error::BadRequest(BadRequestKind::Grammar),
                ) && final(self).head == old(self).head)
                &&& (head_prefix_ok(s) && head_end(s) is None && !eos ==> {
                    &&& r == Ok::<Option<Head>, Error>(None)
                    &&& decoder_fed(*final(decoder)) == s
                    &&& head_prefix_ok(decoder_fed(*final(decoder)))
                    &&& head_end(decoder_fed(*final(decoder))) is None
                    &&& final(self).head == final(self).tail
                    &&& final(self).unread() == Seq::<u8>::empty()
                })
                &&& (head_prefix_ok(s) && head_end(s) is None && eos && s.len() > 0 ==> r
                    == Err::<Option<Head>, Error>(Error::TruncatedRequest) && final(self).head
                    == old(self).head)
                &&& (eos && s.len() == 0 ==> {
                    &&& r == Ok::<Option<Head>, Error>(None)
                    &&& decoder_fed(*final(decoder)) == s
                    &&& head_prefix_ok(decoder_fed(*final(decoder)))
                    &&& head_end(decoder_fed(*final(decoder))) is None
                    &&& final(self).head == old(self).head
                    &&& final(self).unread() == Seq::<u8>::empty()
                })
                &&& (head_prefix_ok(s) && head_end(s) is Some ==> {
                    let k = head_end(s).unwrap();
                    &&& final(self).head == old(self).head + k - fed.len()
                    &&& final(self).unread() == s.skip(k)
                    &&& (head_valid(s.take(k)) ==> (r matches Ok(o) && o matches Some(h) && h@
                        == parsed_head(s.take(k))))
                    &&& (!head_valid(s.take(k)) ==> r == Err::<Option<Head>, Error>(
                        Error::BadRequest(BadRequestKind::Grammar),
                    ))
                })
            }),
    {
        let ghost fed = decoder_fed(*decoder);
        let ghost s = fed + self.unread();
        let chunk = slice_subrange(self.buf.as_slice(), self.head, self.tail);
        assert(chunk@ == old(self).unread());
        let step = decode_step(decoder, chunk, self.eos);
        match step {
            DecodeStep::Consumed(n) => {
                proof {
                    if s.len() == 0 {
                        assert(fed =~= s);
                    }
                }
                assert(n <= self.tail - self.head);
                self.head = self.head + n;
                if decoder_idle(decoder) {
                    proof {
                        assert(head_prefix_ok(s) && head_end(s) is Some);
                        let k = head_end(s).unwrap();
                        assert(decoder_fed(*decoder) == s.take(k));
                        assert(self.unread() =~= s.skip(k));
                    }
                    match finish_head(decoder) {
                        Ok(h) => Ok(Some(h)),
                        Err(()) => Err(Error::BadRequest(BadRequestKind::Grammar)),
                    }
                } else {
                    proof {
                        if head_prefix_ok(s) && head_end(s) is Some {
                            assert(head_complete(decoder_fed(*decoder)));
                        }
                        assert(self.unread() =~= Seq::<u8>::empty());
                    }
                    Ok(None)
                }
            },
            DecodeStep::TruncatedInput => Err(Error::TruncatedRequest),
            DecodeStep::MalformedInput => Err(Error::BadRequest(BadRequestKind::Grammar)),
        }
    }
}

/// The bytes the buffer never over-reports: the unread region lies
/// inside the cursors, which lie inside the capacity, after every
/// operation.
pub proof fn lemma_buffer_bounded(b: ReadBuf)
    requires
        b.wf(),
    ensures
        b.unread().len() == b.tail - b.head,
        b.head <= b.tail <= b.capacity(),
{
}

/// The phase a connection is in. Exactly one phase is active at a time.
pub enum Phase {
    /// No partial request yet; bytes are being read and decoded.
    ReadRequestHead,
    /// A complete, validated request awaits handler execution.
    DispatchRequest(Req),
    /// Terminal: no further I/O is attempted.
    Closed,
}

/// What the caller should do next after driving the machine one step.
#[derive(Clone, Copy, Debug, PartialEq, Eq, Structural)]
pub enum Progress {
    /// Read more bytes from the stream, then advance again.
    NeedRead,
    /// A request is ready: dispatch it, then report the outcome.
    HaveRequest,
    /// The connection is done; drop the stream.
    Closed,
}

/// The decision the head-reading phase owes for a given total byte
/// intake and end-of-stream flag.
pub ghost enum Verdict {
    /// End of stream before any byte of a new request: close cleanly.
    CleanClose,
    /// The bytes so far are a grammatical, incomplete head: read on.
    NeedMore,
    /// A head completed and validated into this request.
    Accept(ReqView),
    /// The request is rejected or truncated with this error.
    Reject(Error),
}

/// What decoding owes for intake `s` with end-of-stream flag `eos`: a
/// pure function of the two, which is what makes the machine's behavior
/// independent of how `s` was chunked into reads. The machine caps the
/// intake per head at [`HEAD_INTAKE_LIMIT`]; a head that has not
/// completed by then can never complete and is rejected.
pub open spec fn decode_verdict(s: Seq<u8>, eos: bool) -> Verdict {
    if eos && s.len() == 0 {
        Verdict::CleanClose
    } else if !head_prefix_ok(s) {
        Verdict::Reject(Error::BadRequest(BadRequestKind::Grammar))
    } else if head_end(s) is Some {
        if !head_valid(s.take(head_end(s).unwrap())) {
            Verdict::Reject(Error::BadRequest(BadRequestKind::Grammar))
        } else {
            match req_outcome(parsed_head(s.take(head_end(s).unwrap()))) {
                Ok(v) => Verdict::Accept(v),
                Err(e) => Verdict::Reject(e),
            }
        }
    } else if eos {
        Verdict::Reject(Error::TruncatedRequest)
    } else if s.len() >= HEAD_INTAKE_LIMIT {
        Verdict::Reject(Error::BadRequest(BadRequestKind::Grammar))
    } else {
        Verdict::NeedMore
    }
}

/// One connection's state machine: the staging buffer, the incremental
/// head decoder, the keep-alive policy and the current phase.
pub struct Connection {
    /// The incremental request-head decoder for the current head.
    pub req_head_decoder: HeadDecoder,
    /// The staging buffer between the stream and the decoder.
    pub read_buf: ReadBuf,
    /// Whether to read another request after a successful dispatch.
    pub keepalive: bool,
    /// The active phase.
    pub phase: Phase,
    /// Whether the decoder has consumed any byte of the current head;
    /// mirrors the decoder's model so the clean-close test is executable.
    pub head_started: bool,
    /// The intake toward the current head, in bytes: consumed plus
    /// buffered; mirrors `pending().len()` so the intake cap is
    /// executable.
    pub intake: usize,
}

impl Connection {
    /// The connection invariant: cursor discipline on the buffer, a
    /// decoder that sits inside a grammatical, incomplete head, accurate
    /// `head_started` and `intake` mirrors, and an intake within the cap
    /// under which the codec's outcome depends on the bytes alone.
    pub open spec fn wf(self) -> bool {
        &&& self.read_buf.wf()
        &&& head_prefix_ok(decoder_fed(self.req_head_decoder))
        &&& head_end(decoder_fed(self.req_head_decoder)) is None
        &&& self.head_started == (decoder_fed(self.req_head_decoder).len() != 0)
        &&& self.intake == self.pending().len()
        &&& self.pending().len() <= HEAD_INTAKE_LIMIT
    }

    /// The total intake toward the current head: bytes the decoder has
    /// consumed plus bytes received but not yet consumed.
    pub open spec fn pending(self) -> Seq<u8> {
        decoder_fed(self.req_head_decoder) + self.read_buf.unread()
    }

    /// Whether the stream has ended.
    pub open spec fn at_eos(self) -> bool {
        self.read_buf.eos
    }

    /// A fresh connection in the head-reading phase.
    pub fn new(options: &ConnectionOptions) -> (r: Connection)
        ensures
            r.wf(),
            r.phase is ReadRequestHead,
            r.pending() == Seq::<u8>::empty(),
            !r.at_eos(),
            r.keepalive == options.keepalive,
            r.read_buf.capacity() == options.read_buf_size,
    {
        let r = Connection {
            req_head_decoder: new_head_decoder(),
            read_buf: ReadBuf::new(options.read_buf_size),
            keepalive: options.keepalive,
            phase: Phase::ReadRequestHead,
            head_started: false,
            intake: 0,
        };
        assert(r.pending() =~= Seq::<u8>::empty());
        r
    }

    /// Whether the machine is reading a request head.
    pub fn is_reading(&self) -> (r: bool)
        ensures
            r == (self.phase is ReadRequestHead),
    {
        matches!(self.phase, Phase::ReadRequestHead)
    }

    /// Whether a request awaits dispatch.
    pub fn is_dispatching(&self) -> (r: bool)
        ensures
            r == (self.phase is DispatchRequest),
    {
        matches!(self.phase, Phase::DispatchRequest(_))
    }

    /// Whether the connection has closed.
    pub fn is_closed(&self) -> (r: bool)
        ensures
            r == (self.phase is Closed),
    {
        matches!(self.phase, Phase::Closed)
    }

    /// Whether the stream has signaled its end.
    pub fn at_end_of_stream(&self) -> (r: bool)
        ensures
            r == self.at_eos(),
    {
        self.read_buf.at_eos()
    }

    /// The request awaiting dispatch.
    pub fn request(&self) -> (r: &Req)
        requires
            self.phase is DispatchRequest,
        ensures
            self.phase matches Phase::DispatchRequest(q) && *r == q,
    {
        match &self.phase {
            Phase::DispatchRequest(q) => q,
            _ => vstd::pervasive::unreached(),
        }
    }

    /// Make room for the next read: compact the buffer when it is fully
    /// drained, and say how many bytes the caller may hand to
    /// [`Connection::note_read`] — the free tail region, shrunk so the
    /// intake toward one head never exceeds [`HEAD_INTAKE_LIMIT`].
    pub fn read_capacity(&mut self) -> (r: usize)
        requires
            old(self).wf(),
        ensures
            final(self).wf(),
            r == vstd::math::min(
                (final(self).read_buf.capacity() - final(self).read_buf.tail) as int,
                HEAD_INTAKE_LIMIT - final(self).intake,
            ),
            final(self).intake + r <= HEAD_INTAKE_LIMIT,
            final(self).pending() == old(self).pending(),
            final(self).at_eos() == old(self).at_eos(),
            final(self).phase == old(self).phase,
            final(self).keepalive == old(self).keepalive,
            final(self).read_buf.capacity() == old(self).read_buf.capacity(),
            final(self).read_buf.capacity() - final(self).read_buf.tail >= r,
    {
        self.read_buf.compact_if_drained();
        proof {
            assert(self.pending() =~= old(self).pending());
        }
        let free = self.read_buf.free_len();
        let headroom = HEAD_INTAKE_LIMIT - self.intake;
        if free < headroom {
            free
        } else {
            headroom
        }
    }

    /// Record the outcome of one read from the stream: zero bytes is the
    /// end-of-stream signal, anything else grows the intake. The caller
    /// hands in at most what [`Connection::read_capacity`] allowed.
    pub fn note_read(&mut self, data: &[u8])
        requires
            old(self).wf(),
            !old(self).at_eos(),
            data@.len() <= old(self).read_buf.capacity() - old(self).read_buf.tail,
            old(self).intake + data@.len() <= HEAD_INTAKE_LIMIT,
        ensures
            final(self).wf(),
            final(self).phase == old(self).phase,
            final(self).keepalive == old(self).keepalive,
            final(self).read_buf.capacity() == old(self).read_buf.capacity(),
            data@.len() == 0 ==> final(self).at_eos() && final(self).pending() == old(self).pending(),
            data@.len() > 0 ==> !final(self).at_eos() && final(self).pending() == old(self).pending() + data@,
    {
        self.read_buf.note_read(data);
        self.intake = self.intake + data.len();
        proof {
            if data@.len() > 0 {
                assert(self.pending() =~= old(self).pending() + data@);
            } else {
                assert(self.pending() =~= old(self).pending());
            }
        }
    }

    /// Drive the head-reading phase one step: decode what is buffered,
    /// and either ask for more bytes, close cleanly at a clean end of
    /// stream, accept a request (moving to the dispatch phase), or
    /// reject with the matching error (closing the connection).
    ///
    /// The outcome follows [`decode_verdict`] of the intake and the
    /// end-of-stream flag alone. On acceptance the decoder is replaced
    /// by a fresh one, so no state of this head can leak into the next.
    pub fn advance(&mut self) -> (r: Result<Progress, Error>)
        requires
            old(self).wf(),
            old(self).phase is ReadRequestHead,
        ensures
            final(self).wf(),
            final(self).keepalive == old(self).keepalive,
            final(self).read_buf.capacity() == old(self).read_buf.capacity(),
            ({
                let s = old(self).pending();
                let eos = old(self).at_eos();
                match decode_verdict(s, eos) {
                    Verdict::CleanClose => r == Ok::<Progress, Error>(Progress::Closed)
                        && final(self).phase is Closed,
                    Verdict::NeedMore => r == Ok::<Progress, Error>(Progress::NeedRead)
                        && final(self).phase is ReadRequestHead && final(self).pending() == s && final(self).at_eos()
                        == eos,
                    Verdict::Accept(v) => r == Ok::<Progress, Error>(Progress::HaveRequest) && (
                    final(self).phase matches Phase::DispatchRequest(q) && q@ == v) && decoder_fed(
                        final(self).req_head_decoder,
                    ) == Seq::<u8>::empty() && final(self).pending() == s.skip(head_end(s).unwrap())
                        && final(self).at_eos() == eos,
                    Verdict::Reject(e) => r == Err::<Progress, Error>(e) && final(self).phase is Closed,
                }
            }),
    {
        let ghost s = old(self).pending();
        if self.read_buf.at_eos() && !self.head_started && self.read_buf.is_empty() {
            proof {
                assert(s =~= Seq::<u8>::empty());
            }
            self.phase = Phase::Closed;
            return Ok(Progress::Closed);
        }
        let had_bytes = !self.read_buf.is_empty();
        match self.read_buf.decode(&mut self.req_head_decoder) {
            Ok(None) => {
                proof {
                    if s.len() == 0 {
                        assert(decoder_fed(self.req_head_decoder) =~= s);
                    }
                }
                self.head_started = self.head_started || had_bytes;
                proof {
                    assert(self.pending() =~= decoder_fed(self.req_head_decoder));
                }
                if self.intake >= HEAD_INTAKE_LIMIT {
                    // The head did not complete within the intake cap and
                    // never can: reject it rather than read on.
                    self.req_head_decoder = new_head_decoder();
                    self.head_started = false;
                    self.intake = self.read_buf.tail - self.read_buf.head;
                    self.phase = Phase::Closed;
                    proof {
                        assert(self.pending() =~= self.read_buf.unread());
                    }
                    Err(Error::BadRequest(BadRequestKind::Grammar))
                } else {
                    Ok(Progress::NeedRead)
                }
            },
            Ok(Some(h)) => {
                self.req_head_decoder = new_head_decoder();
                self.head_started = false;
                self.intake = self.read_buf.tail - self.read_buf.head;
                proof {
                    assert(self.pending() =~= self.read_buf.unread());
                }
                match Req::new(h) {
                    Ok(req) => {
                        self.phase = Phase::DispatchRequest(req);
                        proof {
                            assert(self.pending() =~= old(self).pending().skip(
                                head_end(old(self).pending()).unwrap(),
                            ));
                        }
                        Ok(Progress::HaveRequest)
                    },
                    Err(e) => {
                        self.phase = Phase::Closed;
                        Err(e)
                    },
                }
            },
            Err(e) => {
                self.req_head_decoder = new_head_decoder();
                self.head_started = false;
                self.intake = self.read_buf.tail - self.read_buf.head;
                self.phase = Phase::Closed;
                proof {
                    assert(self.pending() =~= self.read_buf.unread());
                }
                Err(e)
            },
        }
    }

    /// Leave the dispatch phase: on keep-alive the machine returns to
    /// reading the next head over the same buffer, otherwise it closes.
    ///
    /// The state after this call is a function of the state before it
    /// alone — a dispatch failure is surfaced as the error, but leaves
    /// exactly the state a success would have left.
    pub fn finish_dispatch(&mut self, dispatch_ok: bool) -> (r: Result<Progress, Error>)
        requires
            old(self).wf(),
            old(self).phase is DispatchRequest,
        ensures
            final(self).wf(),
            final(self).keepalive == old(self).keepalive,
            final(self).read_buf == old(self).read_buf,
            final(self).req_head_decoder == old(self).req_head_decoder,
            final(self).pending() == old(self).pending(),
            final(self).at_eos() == old(self).at_eos(),
            old(self).keepalive ==> final(self).phase is ReadRequestHead,
            !old(self).keepalive ==> final(self).phase is Closed,
            dispatch_ok ==> r == Ok::<Progress, Error>(
                (if old(self).keepalive {
                    Progress::NeedRead
                } else {
                    Progress::Closed
                }),
            ),
            !dispatch_ok ==> r == Err::<Progress, Error>(Error::Dispatch),
    {
        if self.keepalive {
            self.phase = Phase::ReadRequestHead;
        } else {
            self.phase = Phase::Closed;
        }
        if dispatch_ok {
            if self.keepalive {
                Ok(Progress::NeedRead)
            } else {
                Ok(Progress::Closed)
            }
        } else {
            Err(Error::Dispatch)
        }
    }
}

/// Chunk-boundary independence: what a connection decides about a
/// request head is a function of the total byte intake and the
/// end-of-stream flag alone — two connections that took in the same
/// bytes owe the same verdict, however differently those bytes were
/// split into reads. This holds on the machine's whole domain, which
/// caps the intake per head at [`HEAD_INTAKE_LIMIT`]: beyond that cap
/// the underlying codec's size guard would judge chunk lengths, so the
/// machine rejects such a head instead of feeding it further.
pub proof fn lemma_chunk_boundary_independence(a: Connection, b: Connection)
    requires
        a.wf(),
        b.wf(),
        a.pending() == b.pending(),
        a.at_eos() == b.at_eos(),
    ensures
        decode_verdict(a.pending(), a.at_eos()) == decode_verdict(b.pending(), b.at_eos()),
{
}

/// A zero-length read before any bytes of a new request arrive owes a
/// clean close, never an error.
pub proof fn lemma_eos_before_head_is_clean_close(c: Connection)
    requires
        c.wf(),
        c.at_eos(),
        c.pending().len() == 0,
    ensures
        decode_verdict(c.pending(), c.at_eos()) == Verdict::CleanClose,
{
}

/// A zero-length read after some grammatical bytes of a request head
/// have arrived, but before the head is complete, owes the
/// truncated-request classification — not a clean close.
pub proof fn lemma_eos_mid_head_is_truncated(c: Connection)
    requires
        c.wf(),
        c.at_eos(),
        c.pending().len() > 0,
        head_prefix_ok(c.pending()),
        head_end(c.pending()) is None,
    ensures
        decode_verdict(c.pending(), c.at_eos()) == Verdict::Reject(Error::TruncatedRequest),
{
}

} // verus!
