//! Bidirectional TCP forwarding.
//!
//! An accepted connection with an original destination is forwarded
//! byte-for-byte: each direction owns a small copy buffer, reads into it
//! from its own socket and drains it into the peer, and on end of input
//! shuts the peer's write side down.  The session completes only when both
//! halves have shut down.
//!
//! Sockets are modelled as plain values (`MemIo`): the bytes the peer has
//! sent so far, how many of them were read, and the bytes written out.  The
//! event loop feeds a real socket's reads and writes through the same
//! steps; on the model every step, and the byte-for-byte preservation of
//! the whole session, is verified.

use vstd::prelude::*;

use crate::addr::SockAddr;
use crate::ctx::ClientCtx;
use crate::ctx::ServerCtx;
use crate::ctx::TransportProtocol;
use crate::timeout::NewTimeout;

verus! {

/// Size of each direction's copy buffer, in bytes.
pub const COPY_BUF_CAPACITY: usize = 4096;

/// An error that terminates a forwarding session.
#[derive(Clone, Copy, Debug, PartialEq, Eq, Structural)]
pub enum TcpError {
    /// A peer accepted zero bytes while data remained to be written.
    WriteZero,
}

/// The error raised when a write makes no progress although data remains.
pub fn write_zero() -> (r: TcpError)
    ensures
        r == TcpError::WriteZero,
{
    TcpError::WriteZero
}

/// Outcome of one read step on a socket.
#[derive(Clone, Copy, Debug, PartialEq, Eq, Structural)]
pub enum IoPoll {
    /// This many bytes arrived; zero means end of input.
    Ready(usize),
    /// Nothing to read yet.
    Pending,
}

/// Appends `src[start..end]` to `dst`.
fn append_range(dst: &mut Vec<u8>, src: &Vec<u8>, start: usize, end: usize)
    requires
        start <= end <= src.len(),
    ensures
        final(dst)@ == old(dst)@ + src@.subrange(start as int, end as int),
{
    let mut i: usize = start;
    while i < end
        invariant
            start <= i <= end <= src.len(),
            dst@ == old(dst)@ + src@.subrange(start as int, i as int),
        decreases end - i,
    {
        let b: u8 = src[i];
        dst.push(b);
        proof {
            assert(src@.subrange(start as int, i + 1int) == src@.subrange(start as int, i as int)
                + seq![src@[i as int]]);
        }
        i = i + 1;
    }
    proof {
        assert(dst@ == old(dst)@ + src@.subrange(start as int, end as int));
    }
}

/// A buffer used to copy bytes from one socket to another.
///
/// `data` holds everything read into the buffer since the last reset, and
/// `read_pos` how much of it has already been written out; the capacity is
/// fixed.
#[derive(Clone, Debug)]
pub struct CopyBuf {
    pub data: Vec<u8>,
    pub read_pos: usize,
}

impl CopyBuf {
    /// The positions stay inside the fixed capacity.
    pub open spec fn wf(self) -> bool {
        self.read_pos <= self.data@.len() <= COPY_BUF_CAPACITY
    }

    /// The bytes read into the buffer but not yet written out.
    pub open spec fn content(self) -> Seq<u8> {
        self.data@.subrange(self.read_pos as int, self.data@.len() as int)
    }

    /// How many bytes remain to be written out.
    pub open spec fn spec_remaining(self) -> int {
        self.data@.len() - self.read_pos
    }

    /// How much room is left for reading in.
    pub open spec fn spec_remaining_mut(self) -> int {
        COPY_BUF_CAPACITY - self.data@.len()
    }

    pub fn new() -> (r: CopyBuf)
        ensures
            r.wf(),
            r.content() == Seq::<u8>::empty(),
            r.spec_remaining() == 0,
            r.spec_remaining_mut() == COPY_BUF_CAPACITY,
    {
        let r = CopyBuf { data: Vec::new(), read_pos: 0 };
        proof {
            assert(r.content() =~= Seq::<u8>::empty());
        }
        r
    }

    /// Makes the whole capacity available again.  Only a fully drained
    /// buffer may be reset: resetting earlier would drop unwritten bytes.
    pub fn reset(&mut self)
        requires
            old(self).wf(),
            old(self).spec_remaining() == 0,
        ensures
            final(self).wf(),
            final(self).content() == Seq::<u8>::empty(),
            final(self).spec_remaining() == 0,
            final(self).spec_remaining_mut() == COPY_BUF_CAPACITY,
    {
        self.data.clear();
        self.read_pos = 0;
        proof {
            assert(self.content() =~= Seq::<u8>::empty());
        }
    }

    /// How many bytes remain to be written out.
    pub fn remaining(&self) -> (r: usize)
        requires
            self.wf(),
        ensures
            r == self.spec_remaining(),
    {
        self.data.len() - self.read_pos
    }

    /// How much room is left for reading in.
    pub fn remaining_mut(&self) -> (r: usize)
        requires
            self.wf(),
        ensures
            r == self.spec_remaining_mut(),
    {
        COPY_BUF_CAPACITY - self.data.len()
    }

    /// Marks `cnt` bytes as written out.
    pub fn advance(&mut self, cnt: usize)
        requires
            old(self).wf(),
            cnt <= old(self).spec_remaining(),
        ensures
            final(self).wf(),
            final(self).data == old(self).data,
            final(self).read_pos == old(self).read_pos + cnt,
            final(self).content() == old(self).content().skip(cnt as int),
    {
        self.read_pos = self.read_pos + cnt;
        proof {
            assert(self.content() =~= old(self).content().skip(cnt as int));
        }
    }
}

/// One endpoint of a forwarding session, as plain values: the bytes the
/// peer has sent (`rx`, of which `rx_pos` are consumed), whether the peer
/// has closed its side, the bytes written out (`tx`, accepted up to
/// `tx_limit`), and whether our write side was shut down.
#[derive(Clone, Debug)]
pub struct MemIo {
    pub rx: Vec<u8>,
    pub rx_pos: usize,
    pub rx_closed: bool,
    pub tx: Vec<u8>,
    pub tx_limit: usize,
    pub tx_shut: bool,
}

impl MemIo {
    pub open spec fn wf(self) -> bool {
        &&& self.rx_pos <= self.rx@.len()
        &&& self.tx@.len() <= self.tx_limit
    }

    /// The input not yet read.
    pub open spec fn unread(self) -> Seq<u8> {
        self.rx@.subrange(self.rx_pos as int, self.rx@.len() as int)
    }

    /// An endpoint whose whole input is already known and finished.
    pub fn new_closed(input: Vec<u8>) -> (r: MemIo)
        ensures
            r.wf(),
            r.rx == input,
            r.rx_pos == 0,
            r.rx_closed,
            r.tx@ == Seq::<u8>::empty(),
            r.tx_limit == usize::MAX,
            !r.tx_shut,
    {
        MemIo {
            rx: input,
            rx_pos: 0,
            rx_closed: true,
            tx: Vec::new(),
            tx_limit: usize::MAX,
            tx_shut: false,
        }
    }

    /// An endpoint still awaiting input.
    pub fn new_open(input: Vec<u8>) -> (r: MemIo)
        ensures
            r.wf(),
            r.rx == input,
            r.rx_pos == 0,
            !r.rx_closed,
            r.tx@ == Seq::<u8>::empty(),
            r.tx_limit == usize::MAX,
            !r.tx_shut,
    {
        MemIo {
            rx: input,
            rx_pos: 0,
            rx_closed: false,
            tx: Vec::new(),
            tx_limit: usize::MAX,
            tx_shut: false,
        }
    }

    /// Caps how many bytes in total this endpoint will accept on writes.
    pub fn with_write_limit(self, tx_limit: usize) -> (r: MemIo)
        requires
            self.tx@.len() <= tx_limit,
        ensures
            r == (MemIo { tx_limit, ..self }),
    {
        MemIo { tx_limit, ..self }
    }

    /// More input arrives from the peer.
    pub fn push_input(&mut self, data: &Vec<u8>)
        requires
            old(self).wf(),
            !old(self).rx_closed,
        ensures
            final(self).wf(),
            *final(self) == (MemIo { rx: final(self).rx, ..*old(self) }),
            final(self).rx@ == old(self).rx@ + data@,
    {
        let n = data.len();
        append_range(&mut self.rx, data, 0, n);
        proof {
            assert(data@.subrange(0, n as int) =~= data@);
        }
    }

    /// The peer closed its side: after the bytes already in `rx`, no more
    /// input will arrive.
    pub fn close_input(&mut self)
        ensures
            *final(self) == (MemIo { rx_closed: true, ..*old(self) }),
    {
        self.rx_closed = true;
    }

    /// One read step: moves as much unread input as fits into the buffer.
    /// Zero bytes with the input closed means end of input; with the input
    /// still open there is simply nothing to read yet.
    pub fn read_buf(&mut self, buf: &mut CopyBuf) -> (r: IoPoll)
        requires
            old(self).wf(),
            old(buf).wf(),
        ensures
            final(self).wf(),
            final(buf).wf(),
            *final(self) == (MemIo { rx_pos: final(self).rx_pos, ..*old(self) }),
            match r {
                IoPoll::Ready(n) => {
                    &&& n == vstd::math::min(
                        old(self).rx@.len() - old(self).rx_pos,
                        old(buf).spec_remaining_mut(),
                    )
                    &&& final(self).rx_pos == old(self).rx_pos + n
                    &&& final(buf).read_pos == old(buf).read_pos
                    &&& final(buf).data@ == old(buf).data@ + old(self).rx@.subrange(
                        old(self).rx_pos as int,
                        old(self).rx_pos + n,
                    )
                    &&& n == 0 && old(buf).spec_remaining_mut() > 0 ==> old(self).rx_pos == old(self).rx@.len() && old(self).rx_closed
                },
                IoPoll::Pending => {
                    &&& *final(self) == *old(self)
                    &&& *final(buf) == *old(buf)
                    &&& old(self).rx_pos == old(self).rx@.len()
                    &&& !old(self).rx_closed
                },
            },
    {
        let avail = self.rx.len() - self.rx_pos;
        if avail == 0 {
            if self.rx_closed {
                proof {
                    assert(buf.data@ =~= buf.data@ + self.rx@.subrange(
                        self.rx_pos as int,
                        self.rx_pos as int,
                    ));
                }
                IoPoll::Ready(0)
            } else {
                IoPoll::Pending
            }
        } else {
            let free = COPY_BUF_CAPACITY - buf.data.len();
            let n = if avail < free {
                avail
            } else {
                free
            };
            let end = self.rx_pos + n;
            append_range(&mut buf.data, &self.rx, self.rx_pos, end);
            self.rx_pos = end;
            IoPoll::Ready(n)
        }
    }

    /// One write step: accepts as much of the buffer's content as the
    /// write limit allows and drains it from the buffer.  Returns how many
    /// bytes were accepted; zero while data remains is the broken-sink case
    /// the forwarder turns into `WriteZero`.
    pub fn write_buf(&mut self, buf: &mut CopyBuf) -> (n: usize)
        requires
            old(self).wf(),
            old(buf).wf(),
        ensures
            final(self).wf(),
            final(buf).wf(),
            n == vstd::math::min(old(buf).spec_remaining(), old(self).tx_limit - old(self).tx@.len()),
            *final(self) == (MemIo { tx: final(self).tx, ..*old(self) }),
            final(self).tx@ == old(self).tx@ + old(buf).content().take(n as int),
            final(buf).data == old(buf).data,
            final(buf).read_pos == old(buf).read_pos + n,
            final(buf).content() == old(buf).content().skip(n as int),
    {
        let rem = buf.remaining();
        let room = self.tx_limit - self.tx.len();
        let n = if rem < room {
            rem
        } else {
            room
        };
        let end = buf.read_pos + n;
        append_range(&mut self.tx, &buf.data, buf.read_pos, end);
        buf.advance(n);
        proof {
            assert(old(buf).data@.subrange(old(buf).read_pos as int, old(buf).read_pos + n)
                =~= old(buf).content().take(n as int));
        }
        n
    }

    /// Shuts our write side down.
    pub fn shutdown(&mut self)
        ensures
            *final(self) == (MemIo { tx_shut: true, ..*old(self) }),
    {
        self.tx_shut = true;
    }
}

/// Outcome of one read step of a half duplex.
#[derive(Clone, Copy, Debug, PartialEq, Eq, Structural)]
pub enum ReadPoll {
    Ready,
    Pending,
}

/// Outcome of driving one direction of a session.
#[derive(Clone, Copy, Debug, PartialEq, Eq, Structural)]
pub enum CopyPoll {
    /// End of input was reached, forwarded, and the peer's write side shut.
    Ready,
    /// Waiting for more input.
    Pending,
    Failed(TcpError),
}

/// One direction of a forwarding session: a socket to read from, a copy
/// buffer, and the record of whether this side's peer was shut down.
///
/// `buf` turning `None` records that end of input was observed and every
/// buffered byte was drained into the peer.
#[derive(Clone, Debug)]
pub struct HalfDuplex {
    pub buf: Option<CopyBuf>,
    pub is_shutdown: bool,
    pub io: MemIo,
}

impl HalfDuplex {
    /// The buffer slot is released only once the input is exhausted.
    pub open spec fn wf(self) -> bool {
        &&& self.io.wf()
        &&& (self.is_shutdown ==> self.io.tx_shut)
        &&& match self.buf {
            Some(b) => b.wf(),
            None => self.io.rx_pos == self.io.rx@.len() && self.io.rx_closed,
        }
    }

    /// Bytes read from the socket but not yet written into the peer.
    pub open spec fn buffered(self) -> Seq<u8> {
        match self.buf {
            Some(b) => b.content(),
            None => Seq::empty(),
        }
    }

    pub fn new(io: MemIo) -> (r: HalfDuplex)
        requires
            io.wf(),
        ensures
            r.wf(),
            r.buf is Some,
            r.buffered() == Seq::<u8>::empty(),
            !r.is_shutdown,
            r.io == io,
    {
        HalfDuplex { buf: Some(CopyBuf::new()), is_shutdown: false, io }
    }

    /// Whether this half has acknowledged shutdown.  The flag is set by the
    /// opposite direction once it has forwarded its end of input.
    pub fn is_done(&self) -> (r: bool)
        ensures
            r == self.is_shutdown,
    {
        self.is_shutdown
    }

    /// One read step: when the buffer is drained, make room and pull from
    /// the socket; a zero-byte read is end of input and releases the
    /// buffer slot.
    pub fn read(&mut self) -> (r: ReadPoll)
        requires
            old(self).wf(),
        ensures
            final(self).wf(),
            final(self).io.rx == old(self).io.rx,
            final(self).io.rx_closed == old(self).io.rx_closed,
            final(self).io.tx == old(self).io.tx,
            final(self).io.tx_limit == old(self).io.tx_limit,
            final(self).io.tx_shut == old(self).io.tx_shut,
            final(self).is_shutdown == old(self).is_shutdown,
            old(self).io.rx_pos <= final(self).io.rx_pos <= final(self).io.rx@.len(),
            final(self).buffered() == old(self).buffered() + old(self).io.rx@.subrange(
                old(self).io.rx_pos as int,
                final(self).io.rx_pos as int,
            ),
            r == ReadPoll::Pending ==> {
                &&& final(self).io.rx_pos == old(self).io.rx_pos
                &&& old(self).io.rx_pos == old(self).io.rx@.len()
                &&& !old(self).io.rx_closed
                &&& final(self).buf is Some
                &&& final(self).buffered().len() == 0
            },
            (final(self).buf is None) <==> (old(self).buf is None || (old(self).buffered().len()
                == 0 && old(self).io.rx_pos == old(self).io.rx@.len() && old(self).io.rx_closed)),
            r == ReadPoll::Ready && final(self).buf is Some ==> final(self).buffered().len() > 0,
    {
        let ghost pre = *self;
        match self.buf.take() {
            Some(mut b) => {
                if b.remaining() == 0 {
                    b.reset();
                    match self.io.read_buf(&mut b) {
                        IoPoll::Pending => {
                            self.buf = Some(b);
                            proof {
                                assert(self.buffered() =~= pre.buffered() + pre.io.rx@.subrange(
                                    pre.io.rx_pos as int,
                                    pre.io.rx_pos as int,
                                ));
                            }
                            return ReadPoll::Pending;
                        },
                        IoPoll::Ready(n) => {
                            if n == 0 {
                                // end of input: drop the buffer slot
                                proof {
                                    assert(self.buffered() =~= pre.buffered()
                                        + pre.io.rx@.subrange(
                                        pre.io.rx_pos as int,
                                        pre.io.rx_pos as int,
                                    ));
                                }
                            } else {
                                self.buf = Some(b);
                                proof {
                                    assert(self.buffered() =~= pre.buffered()
                                        + pre.io.rx@.subrange(
                                        pre.io.rx_pos as int,
                                        self.io.rx_pos as int,
                                    ));
                                }
                            }
                        },
                    }
                } else {
                    self.buf = Some(b);
                    proof {
                        assert(self.buffered() =~= pre.buffered() + pre.io.rx@.subrange(
                            pre.io.rx_pos as int,
                            pre.io.rx_pos as int,
                        ));
                    }
                }
            },
            None => {
                proof {
                    assert(self.buffered() =~= pre.buffered() + pre.io.rx@.subrange(
                        pre.io.rx_pos as int,
                        pre.io.rx_pos as int,
                    ));
                }
            },
        }
        ReadPoll::Ready
    }

    /// Drains every buffered byte into the peer.  A step in which the peer
    /// accepts nothing while data remains ends the session with
    /// `WriteZero`.
    pub fn write_into(&mut self, dst: &mut HalfDuplex) -> (r: Result<(), TcpError>)
        requires
            old(self).wf(),
            old(dst).wf(),
        ensures
            final(self).wf(),
            final(dst).wf(),
            final(self).io == old(self).io,
            final(self).is_shutdown == old(self).is_shutdown,
            (final(self).buf is Some) == (old(self).buf is Some),
            final(dst).buf == old(dst).buf,
            final(dst).is_shutdown == old(dst).is_shutdown,
            final(dst).io.rx == old(dst).io.rx,
            final(dst).io.rx_pos == old(dst).io.rx_pos,
            final(dst).io.rx_closed == old(dst).io.rx_closed,
            final(dst).io.tx_limit == old(dst).io.tx_limit,
            final(dst).io.tx_shut == old(dst).io.tx_shut,
            r is Ok <==> old(self).buffered().len() <= old(dst).io.tx_limit - old(dst).io.tx@.len(),
            r is Ok ==> final(self).buffered().len() == 0 && final(dst).io.tx@ == old(dst).io.tx@ + old(self).buffered(),
            r is Err ==> {
                &&& r == Err::<(), TcpError>(TcpError::WriteZero)
                &&& final(dst).io.tx@.len() == old(dst).io.tx_limit
                &&& final(self).buffered().len() > 0
                &&& final(dst).io.tx@ == old(dst).io.tx@ + old(self).buffered().take(
                    old(dst).io.tx_limit - old(dst).io.tx@.len(),
                )
                &&& final(self).buffered() == old(self).buffered().skip(
                    old(dst).io.tx_limit - old(dst).io.tx@.len(),
                )
            },
    {
        match self.buf.take() {
            Some(mut b) => {
                proof {
                    assert(old(self).buffered().skip(0) =~= old(self).buffered());
                    assert(old(dst).io.tx@ + old(self).buffered().take(0) =~= old(dst).io.tx@);
                }
                let mut rem = b.remaining();
                while rem > 0
                    invariant
                        rem == b.spec_remaining(),
                        old(self).wf(),
                        old(dst).wf(),
                        old(self).buf is Some,
                        b.wf(),
                        dst.wf(),
                        self.buf is None,
                        self.io == old(self).io,
                        self.is_shutdown == old(self).is_shutdown,
                        dst.buf == old(dst).buf,
                        dst.is_shutdown == old(dst).is_shutdown,
                        dst.io.rx == old(dst).io.rx,
                        dst.io.rx_pos == old(dst).io.rx_pos,
                        dst.io.rx_closed == old(dst).io.rx_closed,
                        dst.io.tx_limit == old(dst).io.tx_limit,
                        dst.io.tx_shut == old(dst).io.tx_shut,
                        b.spec_remaining() <= old(self).buffered().len(),
                        b.content() == old(self).buffered().skip(
                            old(self).buffered().len() - b.spec_remaining(),
                        ),
                        dst.io.tx@ == old(dst).io.tx@ + old(self).buffered().take(
                            old(self).buffered().len() - b.spec_remaining(),
                        ),
                    decreases b.spec_remaining(),
                {
                    let ghost obuf = old(self).buffered();
                    let ghost done_before = obuf.len() - b.spec_remaining();
                    let ghost tx_before = dst.io.tx@;
                    let n = dst.io.write_buf(&mut b);
                    if n == 0 {
                        proof {
                            assert(dst.io.tx@ =~= tx_before);
                            assert(obuf.take(done_before).len() == done_before);
                        }
                        self.buf = Some(b);
                        return Err(write_zero());
                    }
                    proof {
                        assert(b.content() =~= obuf.skip(obuf.len() - b.spec_remaining()));
                        assert(dst.io.tx@ =~= old(dst).io.tx@ + obuf.take(
                            obuf.len() - b.spec_remaining(),
                        ));
                    }
                    rem = b.remaining();
                }
                proof {
                    assert(old(self).buffered().take(old(self).buffered().len() as int)
                        =~= old(self).buffered());
                }
                self.buf = Some(b);
                Ok(())
            },
            None => {
                proof {
                    assert(old(dst).io.tx@ + old(self).buffered() =~= old(dst).io.tx@);
                }
                Ok(())
            },
        }
    }

    /// Drives this direction as far as it can go in one tick: fill from
    /// our socket, drain into the peer, and on end of input shut the
    /// peer's write side down.
    pub fn copy_into(&mut self, dst: &mut HalfDuplex) -> (r: CopyPoll)
        requires
            old(self).wf(),
            old(dst).wf(),
        ensures
            final(self).wf(),
            final(dst).wf(),
            final(self).io.rx == old(self).io.rx,
            final(self).io.rx_closed == old(self).io.rx_closed,
            final(self).io.tx == old(self).io.tx,
            final(self).io.tx_limit == old(self).io.tx_limit,
            final(self).io.tx_shut == old(self).io.tx_shut,
            final(self).is_shutdown == old(self).is_shutdown,
            final(dst).buf == old(dst).buf,
            final(dst).io.rx == old(dst).io.rx,
            final(dst).io.rx_pos == old(dst).io.rx_pos,
            final(dst).io.rx_closed == old(dst).io.rx_closed,
            final(dst).io.tx_limit == old(dst).io.tx_limit,
            old(self).io.rx_pos <= final(self).io.rx_pos <= final(self).io.rx@.len(),
            // Every byte read is either already written to the peer or
            // still buffered, in order.
            final(dst).io.tx@ + final(self).buffered() == old(dst).io.tx@ + old(self).buffered()
                + old(self).io.rx@.subrange(
                old(self).io.rx_pos as int,
                final(self).io.rx_pos as int,
            ),
            r == CopyPoll::Ready ==> final(self).buf is None && final(dst).is_shutdown && final(dst).io.tx_shut,
            r != CopyPoll::Ready ==> final(dst).is_shutdown == old(dst).is_shutdown && final(dst).io.tx_shut == old(dst).io.tx_shut,
            r == CopyPoll::Pending ==> {
                &&& final(self).buffered().len() == 0
                &&& final(self).io.rx_pos == final(self).io.rx@.len()
                &&& !final(self).io.rx_closed
            },
            r matches CopyPoll::Failed(e) ==> e == TcpError::WriteZero && final(dst).io.tx@.len() == old(dst).io.tx_limit && final(self).buffered().len() > 0,
            // a released buffer slot is never re-allocated
            old(self).buf is None ==> final(self).buf is None,
            // with the input finished and room for all of it, one call
            // finishes the direction
            old(self).io.rx_closed && old(self).buffered().len() + old(self).io.unread().len()
                <= old(dst).io.tx_limit - old(dst).io.tx@.len() ==> r == CopyPoll::Ready,
    {
        proof {
            assert(old(dst).io.tx@ + old(self).buffered() + old(self).io.rx@.subrange(
                old(self).io.rx_pos as int,
                old(self).io.rx_pos as int,
            ) =~= old(dst).io.tx@ + old(self).buffered());
        }
        loop
            invariant
                old(self).wf(),
                old(dst).wf(),
                self.wf(),
                dst.wf(),
                self.io.rx == old(self).io.rx,
                self.io.rx_closed == old(self).io.rx_closed,
                self.io.tx == old(self).io.tx,
                self.io.tx_limit == old(self).io.tx_limit,
                self.io.tx_shut == old(self).io.tx_shut,
                self.is_shutdown == old(self).is_shutdown,
                dst.buf == old(dst).buf,
                dst.is_shutdown == old(dst).is_shutdown,
                dst.io.rx == old(dst).io.rx,
                dst.io.rx_pos == old(dst).io.rx_pos,
                dst.io.rx_closed == old(dst).io.rx_closed,
                dst.io.tx_limit == old(dst).io.tx_limit,
                dst.io.tx_shut == old(dst).io.tx_shut,
                old(self).io.rx_pos <= self.io.rx_pos <= old(self).io.rx@.len(),
                old(self).buf is None ==> self.buf is None,
                dst.io.tx@ + self.buffered() == old(dst).io.tx@ + old(self).buffered()
                    + old(self).io.rx@.subrange(
                    old(self).io.rx_pos as int,
                    self.io.rx_pos as int,
                ),
            decreases old(self).io.rx@.len() - self.io.rx_pos + self.buffered().len() + (
            if self.buf is Some {
                1int
            } else {
                0int
            }),
        {
            if self.buf.is_none() {
                if !dst.is_shutdown {
                    dst.io.shutdown();
                    dst.is_shutdown = true;
                }
                return CopyPoll::Ready;
            }
            let ghost pre_read = *self;
            match self.read() {
                ReadPoll::Pending => {
                    return CopyPoll::Pending;
                },
                ReadPoll::Ready => {},
            }
            proof {
                assert(old(self).io.rx@.subrange(
                    old(self).io.rx_pos as int,
                    pre_read.io.rx_pos as int,
                ) + old(self).io.rx@.subrange(
                    pre_read.io.rx_pos as int,
                    self.io.rx_pos as int,
                ) =~= old(self).io.rx@.subrange(
                    old(self).io.rx_pos as int,
                    self.io.rx_pos as int,
                ));
                assert(self.buffered() =~= pre_read.buffered() + old(self).io.rx@.subrange(
                    pre_read.io.rx_pos as int,
                    self.io.rx_pos as int,
                ));
                assert(dst.io.tx@ + self.buffered() =~= (dst.io.tx@ + pre_read.buffered())
                    + old(self).io.rx@.subrange(
                    pre_read.io.rx_pos as int,
                    self.io.rx_pos as int,
                ));
                assert((old(dst).io.tx@ + old(self).buffered() + old(self).io.rx@.subrange(
                    old(self).io.rx_pos as int,
                    pre_read.io.rx_pos as int,
                )) + old(self).io.rx@.subrange(
                    pre_read.io.rx_pos as int,
                    self.io.rx_pos as int,
                ) =~= old(dst).io.tx@ + old(self).buffered() + old(self).io.rx@.subrange(
                    old(self).io.rx_pos as int,
                    self.io.rx_pos as int,
                ));
                assert(dst.io.tx@ + self.buffered() == old(dst).io.tx@ + old(self).buffered()
                    + old(self).io.rx@.subrange(
                    old(self).io.rx_pos as int,
                    self.io.rx_pos as int,
                ));
            }
            let ghost it_tx = dst.io.tx@;
            let ghost read_buffered = self.buffered();
            match self.write_into(dst) {
                Ok(()) => {},
                Err(e) => {
                    proof {
                        assert(dst.io.tx@ + self.buffered() =~= it_tx + read_buffered);
                        assert(dst.io.tx@.len() + self.buffered().len() == old(dst).io.tx@.len()
                            + old(self).buffered().len() + self.io.rx_pos - old(self).io.rx_pos);
                    }
                    return CopyPoll::Failed(e);
                },
            }
            proof {
                assert(dst.io.tx@ + self.buffered() =~= it_tx + read_buffered);
            }
        }
    }
}

/// What a poll of a whole session reports.
#[derive(Clone, Copy, Debug, PartialEq, Eq, Structural)]
pub enum DuplexPoll {
    /// Both halves have shut down; the session is over.
    Ready,
    /// At least one direction is still waiting for input.
    NotReady,
}

/// A session piping data bidirectionally between two endpoints.
#[derive(Clone, Debug)]
pub struct Duplex {
    pub half_in: HalfDuplex,
    pub half_out: HalfDuplex,
}

impl Duplex {
    pub open spec fn wf(self) -> bool {
        &&& self.half_in.wf()
        &&& self.half_out.wf()
        // a shut-down half records that the opposite direction has
        // finished forwarding its end of input
        &&& (self.half_in.is_shutdown ==> self.half_out.buf is None)
        &&& (self.half_out.is_shutdown ==> self.half_in.buf is None)
    }

    /// Both inputs are finished and each peer has room for everything
    /// still to be forwarded: one tick then completes the session.
    pub open spec fn all_input_fits(self) -> bool {
        &&& self.half_in.io.rx_closed
        &&& self.half_out.io.rx_closed
        &&& self.half_in.buffered().len() + self.half_in.io.unread().len()
            <= self.half_out.io.tx_limit - self.half_out.io.tx@.len()
        &&& self.half_out.buffered().len() + self.half_out.io.unread().len()
            <= self.half_in.io.tx_limit - self.half_in.io.tx@.len()
    }

    pub fn new(in_io: MemIo, out_io: MemIo) -> (r: Duplex)
        requires
            in_io.wf(),
            out_io.wf(),
            !in_io.tx_shut,
            !out_io.tx_shut,
        ensures
            r.wf(),
            r.half_in.io == in_io,
            r.half_out.io == out_io,
            r.half_in.buf is Some,
            r.half_out.buf is Some,
            r.half_in.buffered() == Seq::<u8>::empty(),
            r.half_out.buffered() == Seq::<u8>::empty(),
            !r.half_in.is_shutdown,
            !r.half_out.is_shutdown,
    {
        Duplex { half_in: HalfDuplex::new(in_io), half_out: HalfDuplex::new(out_io) }
    }

    /// One tick of the session: each direction advances as far as it can;
    /// a not-ready direction never keeps the other from making progress.
    /// The session is over only when both halves have shut down.
    pub fn poll(&mut self) -> (r: Result<DuplexPoll, TcpError>)
        requires
            old(self).wf(),
        ensures
            final(self).wf(),
            // reads and writes stay on their own sides
            final(self).half_in.io.rx@ == old(self).half_in.io.rx@,
            final(self).half_in.io.rx_closed == old(self).half_in.io.rx_closed,
            final(self).half_in.io.tx_limit == old(self).half_in.io.tx_limit,
            final(self).half_out.io.rx@ == old(self).half_out.io.rx@,
            final(self).half_out.io.rx_closed == old(self).half_out.io.rx_closed,
            final(self).half_out.io.tx_limit == old(self).half_out.io.tx_limit,
            old(self).half_in.io.rx_pos <= final(self).half_in.io.rx_pos,
            old(self).half_out.io.rx_pos <= final(self).half_out.io.rx_pos,
            // conservation, per direction
            final(self).half_out.io.tx@ + final(self).half_in.buffered() == old(self).half_out.io.tx@ + old(self).half_in.buffered() + old(self).half_in.io.rx@.subrange(
                old(self).half_in.io.rx_pos as int,
                final(self).half_in.io.rx_pos as int,
            ),
            (r matches Ok(DuplexPoll::Ready)) ==> {
                &&& final(self).half_in.is_shutdown
                &&& final(self).half_out.is_shutdown
                &&& final(self).half_in.buf is None
                &&& final(self).half_out.buf is None
                &&& final(self).half_in.buffered().len() == 0
                &&& final(self).half_out.buffered().len() == 0
            },
            final(self).half_in.io.tx@ + final(self).half_out.buffered() == old(self).half_in.io.tx@ + old(self).half_out.buffered() + old(self).half_out.io.rx@.subrange(
                old(self).half_out.io.rx_pos as int,
                final(self).half_out.io.rx_pos as int,
            ),
            // the session reports completion exactly when both halves
            // have shut down
            (r matches Ok(DuplexPoll::NotReady)) ==> !(final(self).half_in.is_shutdown && final(self).half_out.is_shutdown),
            // a half only ever moves forward: its buffer slot is never
            // re-allocated and its shutdown is never undone
            old(self).half_in.buf is None ==> final(self).half_in.buf is None,
            old(self).half_out.buf is None ==> final(self).half_out.buf is None,
            old(self).half_in.is_shutdown ==> final(self).half_in.is_shutdown,
            old(self).half_out.is_shutdown ==> final(self).half_out.is_shutdown,
            r matches Err(e) ==> e == TcpError::WriteZero,
            old(self).all_input_fits() ==> (r matches Ok(DuplexPoll::Ready)),
    {
        let in_to_out = self.half_in.copy_into(&mut self.half_out);
        match in_to_out {
            CopyPoll::Failed(e) => {
                proof {
                    assert(self.half_in.io.tx@ + self.half_out.buffered() =~= old(self).half_in.io.tx@ + old(self).half_out.buffered() + old(self).half_out.io.rx@.subrange(
                        old(self).half_out.io.rx_pos as int,
                        self.half_out.io.rx_pos as int,
                    ));
                }
                return Err(e);
            },
            _ => {},
        }
        let out_to_in = self.half_out.copy_into(&mut self.half_in);
        match out_to_in {
            CopyPoll::Failed(e) => {
                return Err(e);
            },
            _ => {},
        }
        if self.half_in.is_done() && self.half_out.is_done() {
            Ok(DuplexPoll::Ready)
        } else {
            Ok(DuplexPoll::NotReady)
        }
    }
}

/// Forwards one whole recorded session and proves it byte-for-byte: with
/// both inputs complete, everything the first endpoint sent comes out of
/// the second, in order, and the other way round, and both write sides end
/// up shut down.
pub fn run_session(in_io: MemIo, out_io: MemIo) -> (r: Result<Duplex, TcpError>)
    requires
        in_io.wf(),
        out_io.wf(),
        in_io.rx_closed,
        out_io.rx_closed,
        in_io.rx_pos == 0,
        out_io.rx_pos == 0,
        in_io.tx@.len() == 0,
        out_io.tx@.len() == 0,
        !in_io.tx_shut,
        !out_io.tx_shut,
        in_io.rx@.len() <= out_io.tx_limit,
        out_io.rx@.len() <= in_io.tx_limit,
    ensures
        (r is Ok),
        r matches Ok(d) ==> {
            &&& d.half_out.io.tx@ == in_io.rx@
            &&& d.half_in.io.tx@ == out_io.rx@
            &&& d.half_in.is_shutdown
            &&& d.half_out.is_shutdown
            &&& d.half_in.io.tx_shut
            &&& d.half_out.io.tx_shut
        },
{
    let mut d = Duplex::new(in_io, out_io);
    let p = d.poll();
    match p {
        Ok(DuplexPoll::Ready) => {
            proof {
                assert(d.half_out.io.tx@ =~= in_io.rx@);
                assert(d.half_in.io.tx@ =~= out_io.rx@);
            }
            Ok(d)
        },
        Ok(DuplexPoll::NotReady) => {
            proof {
                assert(false);
            }
            Err(TcpError::WriteZero)
        },
        Err(e) => {
            proof {
                assert(false);
            }
            Err(e)
        },
    }
}

/// A plan for forwarding one accepted connection: where to connect, under
/// which client context, and under which deadline.
#[derive(Clone, Copy, Debug)]
pub struct ForwardPlan {
    pub target: SockAddr,
    pub client_ctx: ClientCtx,
    pub connect_timeout: NewTimeout,
}

/// TCP server proxy: decides, per accepted connection, whether and where
/// to forward it.
#[derive(Clone, Copy, Debug)]
pub struct Proxy {
    pub connect_timeout: NewTimeout,
}

impl Proxy {
    /// A proxy whose connect attempts run under the given deadline.
    pub fn new(connect_timeout_ms: u64) -> (r: Proxy)
        ensures
            r.connect_timeout.duration_ms == connect_timeout_ms,
            r.connect_timeout.description matches Some(d) && d@ == "TCP connection"@,
    {
        let connect_timeout = NewTimeout::new(connect_timeout_ms).with_description(
            "TCP connection",
        );
        Proxy { connect_timeout }
    }

    /// Serve one accepted connection.  The only information a raw TCP
    /// connection carries is its original destination; without one (or
    /// with one that would loop back into this listener) the connection is
    /// dropped.  Otherwise the plan connects to the original destination,
    /// under this proxy's deadline, as a TCP client.
    pub fn serve(&self, srv_ctx: &ServerCtx) -> (r: Option<ForwardPlan>)
        ensures
            (r is Some) == (srv_ctx.spec_orig_dst_if_not_local() is Some),
            r matches Some(p) ==> {
                &&& Some(p.target) == srv_ctx.spec_orig_dst_if_not_local()
                &&& p.target != srv_ctx.local
                &&& p.client_ctx.remote == p.target
                &&& p.client_ctx.protocol == TransportProtocol::Tcp
                &&& p.connect_timeout == self.connect_timeout
            },
    {
        match srv_ctx.orig_dst_if_not_local() {
            Some(orig_dst) => {
                let client_ctx = ClientCtx::new(orig_dst, TransportProtocol::Tcp);
                Some(
                    ForwardPlan {
                        target: orig_dst,
                        client_ctx,
                        connect_timeout: self.connect_timeout,
                    },
                )
            },
            None => None,
        }
    }
}

} // verus!
