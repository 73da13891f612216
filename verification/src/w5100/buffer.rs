//! Moving bytes through a socket's circular buffers.
//!
//! The chip reports how many bytes wait in the receive buffer, or how
//! many are free in the transmit buffer, and where its pointer stands.
//! A transfer takes no more than the chip reported and no more than the
//! client's buffer holds; where it reaches past the end of the chip's
//! buffer it is made in two parts. The pointer is moved, and the chip
//! told, only after all bytes have been moved.

use vstd::prelude::*;
use crate::bus::{Action, Event, Poll};
use crate::error::{RequestError, W5100Error};
use crate::w5100::socket::{
    bounded, split_at_wrap, Command, ReadableSocketRegisterU16, Socket, WriteableSocketRegister,
    LEASE_LIMIT, SN_CR, SN_RX_RD, SN_RX_RSR, SN_TX_FSR, SN_TX_WR,
};
use crate::w5100::spi_stream::{stream, OP_READ, OP_WRITE};
use crate::w5100::{
    lemma_read_raw_lease_step, lemma_read_u16_wf, lemma_write_raw_lease_step, lemma_write_raw_step,
    Payload, ReadRawLease, ReadU16, WriteRaw, WriteRawLease, W5100,
};

verus! {

/// A pointer of the chip after `n` more bytes: pointers wrap at 16 bits.
pub open spec fn advanced(pointer: u16, n: u16) -> u16 {
    ((pointer + n) % 0x10000) as u16
}

/// Where a receive stands.
#[derive(Clone, Copy, Debug, PartialEq, Eq, Structural)]
pub enum ReceivePhase {
    /// The received size is being read.
    Size(ReadU16),
    /// The read pointer is being read; `n` bytes will be moved.
    Pointer { n: u16, rd: ReadU16 },
    /// The part up to the buffer's end is being moved; `rest` bytes
    /// follow from the buffer's beginning.
    First { n: u16, pointer: u16, rest: u16, fill: ReadRawLease },
    /// The part from the buffer's beginning is being moved.
    Second { n: u16, pointer: u16, fill: ReadRawLease },
    /// The new read pointer is being written.
    Advance { n: u16, pointer: u16, wr: WriteRaw },
    /// The chip is being told that the bytes were taken.
    Command { n: u16, wr: WriteRaw },
}

/// A receive in progress: from the socket's receive buffer into a
/// client's buffer of `len` bytes.
#[derive(Clone, Copy, Debug, PartialEq, Eq, Structural)]
pub struct Receive {
    pub sock: Socket,
    pub len: usize,
    pub phase: ReceivePhase,
}

impl Receive {
    /// The receive before its first action.
    pub open spec fn start(sock: Socket, len: usize) -> Receive {
        Receive { sock, len, phase: ReceivePhase::Size(ReadU16::start(SN_RX_RSR + sock.register_offset)) }
    }

    /// The receive as it begins to move `n` bytes from where `pointer`
    /// points.
    pub open spec fn moving(self, n: u16, pointer: u16) -> Receive {
        let offset = pointer as int % self.sock.rx_size as int;
        let parts = split_at_wrap(offset, n as int, self.sock.rx_size as int);
        Receive {
            phase: ReceivePhase::First {
                n,
                pointer,
                rest: parts.1 as u16,
                fill: ReadRawLease::start(self.sock.rx_addr + offset, parts.0 as u16, 0),
            },
            ..self
        }
    }

    /// The receive as it begins to write the new read pointer.
    pub open spec fn advancing(self, n: u16, pointer: u16) -> Receive {
        Receive {
            phase: ReceivePhase::Advance {
                n,
                pointer,
                wr: WriteRaw::start(
                    SN_RX_RD + self.sock.register_offset,
                    Payload::of_u16(advanced(pointer, n)),
                ),
            },
            ..self
        }
    }

    /// How many bytes the receive moves, once that is settled.
    pub open spec fn count(self) -> Option<u16> {
        match self.phase {
            ReceivePhase::Size(rd) => None,
            ReceivePhase::Pointer { n, rd } => Some(n),
            ReceivePhase::First { n, pointer, rest, fill } => Some(n),
            ReceivePhase::Second { n, pointer, fill } => Some(n),
            ReceivePhase::Advance { n, pointer, wr } => Some(n),
            ReceivePhase::Command { n, wr } => Some(n),
        }
    }

    /// The register from which the byte for index `i` of the client's
    /// buffer is read when the read pointer was read as `pointer`: the
    /// chip's buffer is gone through from where the pointer points, and
    /// from its beginning again after its end.
    pub open spec fn source(self, pointer: u16, i: int) -> int {
        let offset = pointer as int % self.sock.rx_size as int;
        if offset + i < self.sock.rx_size {
            self.sock.rx_addr + offset + i
        } else {
            self.sock.rx_addr + offset + i - self.sock.rx_size
        }
    }

    /// What holds of the receive at every step.
    pub open spec fn wf(self) -> bool {
        &&& self.sock.wf()
        &&& self.len <= LEASE_LIMIT
        &&& match self.phase {
            ReceivePhase::Size(rd) => rd.wf() && rd.base() == SN_RX_RSR + self.sock.register_offset,
            ReceivePhase::Pointer { n, rd } => rd.wf() && rd.base() == SN_RX_RD
                + self.sock.register_offset && 1 <= n <= self.len,
            ReceivePhase::First { n, pointer, rest, fill } => {
                &&& fill.wf()
                &&& 1 <= n <= self.len
                &&& rest < n
                &&& fill.pos + fill.left == n - rest
                &&& rest > 0 ==> fill.cmd.addr() + fill.left == self.sock.rx_addr
                    + self.sock.rx_size
                &&& fill.cmd.addr() == self.source(pointer, fill.pos as int)
                &&& pointer % self.sock.rx_size + n - rest <= self.sock.rx_size
            },
            ReceivePhase::Second { n, pointer, fill } => {
                &&& fill.wf()
                &&& 1 <= n <= self.len
                &&& fill.pos + fill.left == n
                &&& fill.cmd.addr() == self.source(pointer, fill.pos as int)
                &&& pointer % self.sock.rx_size + fill.pos >= self.sock.rx_size
            },
            ReceivePhase::Advance { n, pointer, wr } => {
                &&& wr.wf()
                &&& wr.base() == SN_RX_RD + self.sock.register_offset
                &&& wr.data == Payload::of_u16(advanced(pointer, n))
                &&& 1 <= n <= self.len
            },
            ReceivePhase::Command { n, wr } => wr == WriteRaw::start(
                SN_CR + self.sock.register_offset,
                Payload::One(Command::Recv.code()),
            ) && 1 <= n <= self.len,
        }
    }

    /// What the receive is waiting for.
    pub open spec fn pending(self) -> Action {
        match self.phase {
            ReceivePhase::Size(rd) => rd.pending(),
            ReceivePhase::Pointer { n, rd } => rd.pending(),
            ReceivePhase::First { n, pointer, rest, fill } => fill.pending(),
            ReceivePhase::Second { n, pointer, fill } => fill.pending(),
            ReceivePhase::Advance { n, pointer, wr } => wr.pending(),
            ReceivePhase::Command { n, wr } => wr.pending(),
        }
    }

    /// The receive after `ev`.
    ///
    /// The received size is read, and the receive ends with 0 if the
    /// chip has nothing or the client's buffer is empty. Otherwise the
    /// read pointer is read, the bytes are moved into the client's
    /// buffer from its beginning on, in one part or in two, the read
    /// pointer is moved on by their number, the chip is told, and the
    /// receive ends with that number. A failure of the transport or of
    /// the client's buffer ends it at once.
    #[verifier::opaque]
    pub open spec fn step(self, ev: Event) -> Poll<Receive, Result<usize, RequestError>> {
        match self.phase {
            ReceivePhase::Size(rd) => match rd.step(ev) {
                Poll::Pending(r) => Poll::Pending(Receive { phase: ReceivePhase::Size(r), ..self }),
                Poll::Ready(Err(e)) => Poll::Ready(Err(RequestError::Runtime(e))),
                Poll::Ready(Ok(reported)) => if bounded(self.len, reported) == 0 {
                    Poll::Ready(Ok(0))
                } else {
                    Poll::Pending(
                        Receive {
                            phase: ReceivePhase::Pointer {
                                n: bounded(self.len, reported),
                                rd: ReadU16::start(SN_RX_RD + self.sock.register_offset),
                            },
                            ..self
                        },
                    )
                },
            },
            ReceivePhase::Pointer { n, rd } => match rd.step(ev) {
                Poll::Pending(r) => Poll::Pending(
                    Receive { phase: ReceivePhase::Pointer { n, rd: r }, ..self },
                ),
                Poll::Ready(Err(e)) => Poll::Ready(Err(RequestError::Runtime(e))),
                Poll::Ready(Ok(pointer)) => Poll::Pending(self.moving(n, pointer)),
            },
            ReceivePhase::First { n, pointer, rest, fill } => match fill.step(ev) {
                Poll::Pending(f) => Poll::Pending(
                    Receive { phase: ReceivePhase::First { n, pointer, rest, fill: f }, ..self },
                ),
                Poll::Ready(Err(e)) => Poll::Ready(Err(e)),
                Poll::Ready(Ok(())) => if rest > 0 {
                    Poll::Pending(
                        Receive {
                            phase: ReceivePhase::Second {
                                n,
                                pointer,
                                fill: ReadRawLease::start(
                                    self.sock.rx_addr as int,
                                    rest,
                                    (n - rest) as usize,
                                ),
                            },
                            ..self
                        },
                    )
                } else {
                    Poll::Pending(self.advancing(n, pointer))
                },
            },
            ReceivePhase::Second { n, pointer, fill } => match fill.step(ev) {
                Poll::Pending(f) => Poll::Pending(
                    Receive { phase: ReceivePhase::Second { n, pointer, fill: f }, ..self },
                ),
                Poll::Ready(Err(e)) => Poll::Ready(Err(e)),
                Poll::Ready(Ok(())) => Poll::Pending(self.advancing(n, pointer)),
            },
            ReceivePhase::Advance { n, pointer, wr } => match wr.step(ev) {
                Poll::Pending(w) => Poll::Pending(
                    Receive { phase: ReceivePhase::Advance { n, pointer, wr: w }, ..self },
                ),
                Poll::Ready(Err(e)) => Poll::Ready(Err(RequestError::Runtime(e))),
                Poll::Ready(Ok(())) => Poll::Pending(
                    Receive {
                        phase: ReceivePhase::Command {
                            n,
                            wr: WriteRaw::start(
                                SN_CR + self.sock.register_offset,
                                Payload::One(Command::Recv.code()),
                            ),
                        },
                        ..self
                    },
                ),
            },
            ReceivePhase::Command { n, wr } => match wr.step(ev) {
                Poll::Pending(w) => Poll::Pending(
                    Receive { phase: ReceivePhase::Command { n, wr: w }, ..self },
                ),
                Poll::Ready(Err(e)) => Poll::Ready(Err(RequestError::Runtime(e))),
                Poll::Ready(Ok(())) => Poll::Ready(Ok(n as usize)),
            },
        }
    }

    /// What the receive is waiting for: the action to perform next.
    pub fn action(&self) -> (a: Action)
        ensures
            a == self.pending(),
    {
        match self.phase {
            ReceivePhase::Size(rd) => rd.action(),
            ReceivePhase::Pointer { n: _, rd } => rd.action(),
            ReceivePhase::First { n: _, pointer: _, rest: _, fill } => fill.action(),
            ReceivePhase::Second { n: _, pointer: _, fill } => fill.action(),
            ReceivePhase::Advance { n: _, pointer: _, wr } => wr.action(),
            ReceivePhase::Command { n: _, wr } => wr.action(),
        }
    }

    /// Enters the write of the read pointer, moved on by `n`.
    fn advance(self, n: u16, pointer: u16) -> (m: Receive)
        requires
            self.wf(),
            1 <= n <= self.len,
        ensures
            m == self.advancing(n, pointer),
            m.wf(),
    {
        Receive {
            sock: self.sock,
            len: self.len,
            phase: ReceivePhase::Advance {
                n,
                pointer,
                wr: self.sock.write_reg(WriteableSocketRegister::RxRd(pointer.wrapping_add(n))),
            },
        }
    }

    /// Takes what came of the awaited action and goes on.
    pub fn resume(self, ev: Event) -> (r: Poll<Receive, Result<usize, RequestError>>)
        requires
            self.wf(),
            self.pending().answered_by(ev),
        ensures
            r == self.step(ev),
            r matches Poll::Pending(m) ==> m.wf() && m.sock == self.sock && m.len == self.len,
    {
        proof {
            reveal(Receive::step);
        }
        let sock = self.sock;
        let len = self.len;
        match self.phase {
            ReceivePhase::Size(rd) => match rd.resume(ev) {
                Poll::Pending(r) => Poll::Pending(Receive { sock, len, phase: ReceivePhase::Size(r) }),
                Poll::Ready(Err(e)) => Poll::Ready(Err(RequestError::Runtime(e))),
                Poll::Ready(Ok(nready)) => {
                    let n: u16 = Socket::bound(len, nready);
                    if n == 0 {
                        Poll::Ready(Ok(0))
                    } else {
                        Poll::Pending(
                            Receive {
                                sock,
                                len,
                                phase: ReceivePhase::Pointer {
                                    n,
                                    rd: sock.read_reg_u16(ReadableSocketRegisterU16::RxRd),
                                },
                            },
                        )
                    }
                },
            },
            ReceivePhase::Pointer { n, rd } => match rd.resume(ev) {
                Poll::Pending(r) => Poll::Pending(
                    Receive { sock, len, phase: ReceivePhase::Pointer { n, rd: r } },
                ),
                Poll::Ready(Err(e)) => Poll::Ready(Err(RequestError::Runtime(e))),
                Poll::Ready(Ok(rd_pointer)) => {
                    let offset: u16 = Socket::offset(rd_pointer, sock.rx_size);
                    let (to_end, rest) = Socket::split(offset, n, sock.rx_size);
                    Poll::Pending(
                        Receive {
                            sock,
                            len,
                            phase: ReceivePhase::First {
                                n,
                                pointer: rd_pointer,
                                rest,
                                fill: W5100::read_raw_lease(sock.rx_addr + offset, to_end, 0),
                            },
                        },
                    )
                },
            },
            ReceivePhase::First { n, pointer, rest, fill } => match fill.resume(ev) {
                Poll::Pending(f) => Poll::Pending(
                    Receive { sock, len, phase: ReceivePhase::First { n, pointer, rest, fill: f } },
                ),
                Poll::Ready(Err(e)) => Poll::Ready(Err(e)),
                Poll::Ready(Ok(())) => if rest > 0 {
                    Poll::Pending(
                        Receive {
                            sock,
                            len,
                            phase: ReceivePhase::Second {
                                n,
                                pointer,
                                fill: W5100::read_raw_lease(sock.rx_addr, rest, (n - rest) as usize),
                            },
                        },
                    )
                } else {
                    Poll::Pending(self.advance(n, pointer))
                },
            },
            ReceivePhase::Second { n, pointer, fill } => match fill.resume(ev) {
                Poll::Pending(f) => Poll::Pending(
                    Receive { sock, len, phase: ReceivePhase::Second { n, pointer, fill: f } },
                ),
                Poll::Ready(Err(e)) => Poll::Ready(Err(e)),
                Poll::Ready(Ok(())) => Poll::Pending(self.advance(n, pointer)),
            },
            ReceivePhase::Advance { n, pointer, wr } => match wr.resume(ev) {
                Poll::Pending(w) => Poll::Pending(
                    Receive { sock, len, phase: ReceivePhase::Advance { n, pointer, wr: w } },
                ),
                Poll::Ready(Err(e)) => Poll::Ready(Err(RequestError::Runtime(e))),
                Poll::Ready(Ok(())) => Poll::Pending(
                    Receive {
                        sock,
                        len,
                        phase: ReceivePhase::Command { n, wr: sock.send_command(Command::Recv) },
                    },
                ),
            },
            ReceivePhase::Command { n, wr } => match wr.resume(ev) {
                Poll::Pending(w) => Poll::Pending(
                    Receive { sock, len, phase: ReceivePhase::Command { n, wr: w } },
                ),
                Poll::Ready(Err(e)) => Poll::Ready(Err(RequestError::Runtime(e))),
                Poll::Ready(Ok(())) => Poll::Ready(Ok(n as usize)),
            },
        }
    }
}

impl Socket {
    /// Begins to move up to `len` bytes from the socket's receive buffer
    /// into the client's buffer. It ends with the number of bytes moved;
    /// 0 says that nothing waits now, not that nothing will come.
    pub fn recv(&self, len: usize) -> (m: Receive)
        requires
            self.wf(),
            len <= LEASE_LIMIT,
        ensures
            m == Receive::start(*self, len),
            m.wf(),
    {
        Receive {
            sock: *self,
            len,
            phase: ReceivePhase::Size(self.read_reg_u16(ReadableSocketRegisterU16::RxRsr)),
        }
    }
}

/// Where a send stands.
#[derive(Clone, Copy, Debug, PartialEq, Eq, Structural)]
pub enum TransmitPhase {
    /// The free size is being read.
    Size(ReadU16),
    /// The write pointer is being read; `n` bytes will be moved.
    Pointer { n: u16, rd: ReadU16 },
    /// The part up to the buffer's end is being moved; `rest` bytes
    /// follow from the buffer's beginning.
    First { n: u16, pointer: u16, rest: u16, drain: WriteRawLease },
    /// The part from the buffer's beginning is being moved.
    Second { n: u16, pointer: u16, drain: WriteRawLease },
    /// The new write pointer is being written.
    Advance { n: u16, pointer: u16, wr: WriteRaw },
    /// The chip is being told to send the bytes.
    Command { n: u16, wr: WriteRaw },
}

/// A send in progress: from a client's buffer of `len` bytes into the
/// socket's transmit buffer.
#[derive(Clone, Copy, Debug, PartialEq, Eq, Structural)]
pub struct Transmit {
    pub sock: Socket,
    pub len: usize,
    pub phase: TransmitPhase,
}

impl Transmit {
    /// The send before its first action.
    pub open spec fn start(sock: Socket, len: usize) -> Transmit {
        Transmit { sock, len, phase: TransmitPhase::Size(ReadU16::start(SN_TX_FSR + sock.register_offset)) }
    }

    /// The send as it begins to move `n` bytes to where `pointer`
    /// points.
    pub open spec fn moving(self, n: u16, pointer: u16) -> Transmit {
        let offset = pointer as int % self.sock.tx_size as int;
        let parts = split_at_wrap(offset, n as int, self.sock.tx_size as int);
        Transmit {
            phase: TransmitPhase::First {
                n,
                pointer,
                rest: parts.1 as u16,
                drain: WriteRawLease::start(self.sock.tx_addr + offset, parts.0 as u16, 0),
            },
            ..self
        }
    }

    /// The send as it begins to write the new write pointer.
    pub open spec fn advancing(self, n: u16, pointer: u16) -> Transmit {
        Transmit {
            phase: TransmitPhase::Advance {
                n,
                pointer,
                wr: WriteRaw::start(
                    SN_TX_WR + self.sock.register_offset,
                    Payload::of_u16(advanced(pointer, n)),
                ),
            },
            ..self
        }
    }

    /// How many bytes the send moves, once that is settled.
    pub open spec fn count(self) -> Option<u16> {
        match self.phase {
            TransmitPhase::Size(rd) => None,
            TransmitPhase::Pointer { n, rd } => Some(n),
            TransmitPhase::First { n, pointer, rest, drain } => Some(n),
            TransmitPhase::Second { n, pointer, drain } => Some(n),
            TransmitPhase::Advance { n, pointer, wr } => Some(n),
            TransmitPhase::Command { n, wr } => Some(n),
        }
    }

    /// The register to which the byte at index `i` of the client's buffer
    /// is written when the write pointer was read as `pointer`: the chip's
    /// buffer is gone through from where the pointer points, and from its
    /// beginning again after its end.
    pub open spec fn target(self, pointer: u16, i: int) -> int {
        let offset = pointer as int % self.sock.tx_size as int;
        if offset + i < self.sock.tx_size {
            self.sock.tx_addr + offset + i
        } else {
            self.sock.tx_addr + offset + i - self.sock.tx_size
        }
    }

    /// What holds of the send at every step.
    pub open spec fn wf(self) -> bool {
        &&& self.sock.wf()
        &&& self.len <= LEASE_LIMIT
        &&& match self.phase {
            TransmitPhase::Size(rd) => rd.wf() && rd.base() == SN_TX_FSR + self.sock.register_offset,
            TransmitPhase::Pointer { n, rd } => rd.wf() && rd.base() == SN_TX_WR
                + self.sock.register_offset && 1 <= n <= self.len,
            TransmitPhase::First { n, pointer, rest, drain } => {
                &&& drain.wf()
                &&& 1 <= n <= self.len
                &&& rest < n
                &&& drain.pos + drain.left == n - rest
                &&& rest > 0 ==> drain.cmd.addr() + drain.left == self.sock.tx_addr
                    + self.sock.tx_size
                &&& drain.cmd.addr() == self.target(pointer, drain.pos as int)
                &&& pointer % self.sock.tx_size + n - rest <= self.sock.tx_size
            },
            TransmitPhase::Second { n, pointer, drain } => {
                &&& drain.wf()
                &&& 1 <= n <= self.len
                &&& drain.pos + drain.left == n
                &&& drain.cmd.addr() == self.target(pointer, drain.pos as int)
                &&& pointer % self.sock.tx_size + drain.pos >= self.sock.tx_size
            },
            TransmitPhase::Advance { n, pointer, wr } => {
                &&& wr.wf()
                &&& wr.base() == SN_TX_WR + self.sock.register_offset
                &&& wr.data == Payload::of_u16(advanced(pointer, n))
                &&& 1 <= n <= self.len
            },
            TransmitPhase::Command { n, wr } => wr == WriteRaw::start(
                SN_CR + self.sock.register_offset,
                Payload::One(Command::Send.code()),
            ) && 1 <= n <= self.len,
        }
    }

    /// What the send is waiting for.
    pub open spec fn pending(self) -> Action {
        match self.phase {
            TransmitPhase::Size(rd) => rd.pending(),
            TransmitPhase::Pointer { n, rd } => rd.pending(),
            TransmitPhase::First { n, pointer, rest, drain } => drain.pending(),
            TransmitPhase::Second { n, pointer, drain } => drain.pending(),
            TransmitPhase::Advance { n, pointer, wr } => wr.pending(),
            TransmitPhase::Command { n, wr } => wr.pending(),
        }
    }

    /// The send after `ev`.
    ///
    /// The free size is read, and the send ends with 0 if the chip has
    /// no room or the client's buffer is empty. Otherwise the write
    /// pointer is read, the bytes are moved out of the client's buffer
    /// from its beginning on, in one part or in two, the write pointer
    /// is moved on by their number, the chip is told to send, and the
    /// send ends with that number. A failure of the transport or of the
    /// client's buffer ends it at once.
    #[verifier::opaque]
    pub open spec fn step(self, ev: Event) -> Poll<Transmit, Result<usize, RequestError>> {
        match self.phase {
            TransmitPhase::Size(rd) => match rd.step(ev) {
                Poll::Pending(r) => Poll::Pending(Transmit { phase: TransmitPhase::Size(r), ..self }),
                Poll::Ready(Err(e)) => Poll::Ready(Err(RequestError::Runtime(e))),
                Poll::Ready(Ok(reported)) => if bounded(self.len, reported) == 0 {
                    Poll::Ready(Ok(0))
                } else {
                    Poll::Pending(
                        Transmit {
                            phase: TransmitPhase::Pointer {
                                n: bounded(self.len, reported),
                                rd: ReadU16::start(SN_TX_WR + self.sock.register_offset),
                            },
                            ..self
                        },
                    )
                },
            },
            TransmitPhase::Pointer { n, rd } => match rd.step(ev) {
                Poll::Pending(r) => Poll::Pending(
                    Transmit { phase: TransmitPhase::Pointer { n, rd: r }, ..self },
                ),
                Poll::Ready(Err(e)) => Poll::Ready(Err(RequestError::Runtime(e))),
                Poll::Ready(Ok(pointer)) => Poll::Pending(self.moving(n, pointer)),
            },
            TransmitPhase::First { n, pointer, rest, drain } => match drain.step(ev) {
                Poll::Pending(f) => Poll::Pending(
                    Transmit { phase: TransmitPhase::First { n, pointer, rest, drain: f }, ..self },
                ),
                Poll::Ready(Err(e)) => Poll::Ready(Err(e)),
                Poll::Ready(Ok(())) => if rest > 0 {
                    Poll::Pending(
                        Transmit {
                            phase: TransmitPhase::Second {
                                n,
                                pointer,
                                drain: WriteRawLease::start(
                                    self.sock.tx_addr as int,
                                    rest,
                                    (n - rest) as usize,
                                ),
                            },
                            ..self
                        },
                    )
                } else {
                    Poll::Pending(self.advancing(n, pointer))
                },
            },
            TransmitPhase::Second { n, pointer, drain } => match drain.step(ev) {
                Poll::Pending(f) => Poll::Pending(
                    Transmit { phase: TransmitPhase::Second { n, pointer, drain: f }, ..self },
                ),
                Poll::Ready(Err(e)) => Poll::Ready(Err(e)),
                Poll::Ready(Ok(())) => Poll::Pending(self.advancing(n, pointer)),
            },
            TransmitPhase::Advance { n, pointer, wr } => match wr.step(ev) {
                Poll::Pending(w) => Poll::Pending(
                    Transmit { phase: TransmitPhase::Advance { n, pointer, wr: w }, ..self },
                ),
                Poll::Ready(Err(e)) => Poll::Ready(Err(RequestError::Runtime(e))),
                Poll::Ready(Ok(())) => Poll::Pending(
                    Transmit {
                        phase: TransmitPhase::Command {
                            n,
                            wr: WriteRaw::start(
                                SN_CR + self.sock.register_offset,
                                Payload::One(Command::Send.code()),
                            ),
                        },
                        ..self
                    },
                ),
            },
            TransmitPhase::Command { n, wr } => match wr.step(ev) {
                Poll::Pending(w) => Poll::Pending(
                    Transmit { phase: TransmitPhase::Command { n, wr: w }, ..self },
                ),
                Poll::Ready(Err(e)) => Poll::Ready(Err(RequestError::Runtime(e))),
                Poll::Ready(Ok(())) => Poll::Ready(Ok(n as usize)),
            },
        }
    }

    /// What the send is waiting for: the action to perform next.
    pub fn action(&self) -> (a: Action)
        ensures
            a == self.pending(),
    {
        match self.phase {
            TransmitPhase::Size(rd) => rd.action(),
            TransmitPhase::Pointer { n: _, rd } => rd.action(),
            TransmitPhase::First { n: _, pointer: _, rest: _, drain } => drain.action(),
            TransmitPhase::Second { n: _, pointer: _, drain } => drain.action(),
            TransmitPhase::Advance { n: _, pointer: _, wr } => wr.action(),
            TransmitPhase::Command { n: _, wr } => wr.action(),
        }
    }

    /// Enters the write of the write pointer, moved on by `n`.
    fn advance(self, n: u16, pointer: u16) -> (m: Transmit)
        requires
            self.wf(),
            1 <= n <= self.len,
        ensures
            m == self.advancing(n, pointer),
            m.wf(),
    {
        Transmit {
            sock: self.sock,
            len: self.len,
            phase: TransmitPhase::Advance {
                n,
                pointer,
                wr: self.sock.write_reg(WriteableSocketRegister::TxWr(pointer.wrapping_add(n))),
            },
        }
    }

    /// Takes what came of the awaited action and goes on.
    pub fn resume(self, ev: Event) -> (r: Poll<Transmit, Result<usize, RequestError>>)
        requires
            self.wf(),
            self.pending().answered_by(ev),
        ensures
            r == self.step(ev),
            r matches Poll::Pending(m) ==> m.wf() && m.sock == self.sock && m.len == self.len,
    {
        proof {
            reveal(Transmit::step);
        }
        let sock = self.sock;
        let len = self.len;
        match self.phase {
            TransmitPhase::Size(rd) => match rd.resume(ev) {
                Poll::Pending(r) => Poll::Pending(Transmit { sock, len, phase: TransmitPhase::Size(r) }),
                Poll::Ready(Err(e)) => Poll::Ready(Err(RequestError::Runtime(e))),
                Poll::Ready(Ok(tx_free)) => {
                    let n: u16 = Socket::bound(len, tx_free);
                    if n == 0 {
                        Poll::Ready(Ok(0))
                    } else {
                        Poll::Pending(
                            Transmit {
                                sock,
                                len,
                                phase: TransmitPhase::Pointer {
                                    n,
                                    rd: sock.read_reg_u16(ReadableSocketRegisterU16::TxWr),
                                },
                            },
                        )
                    }
                },
            },
            TransmitPhase::Pointer { n, rd } => match rd.resume(ev) {
                Poll::Pending(r) => Poll::Pending(
                    Transmit { sock, len, phase: TransmitPhase::Pointer { n, rd: r } },
                ),
                Poll::Ready(Err(e)) => Poll::Ready(Err(RequestError::Runtime(e))),
                Poll::Ready(Ok(tx_pointer)) => {
                    let offset: u16 = Socket::offset(tx_pointer, sock.tx_size);
                    let (to_end, rest) = Socket::split(offset, n, sock.tx_size);
                    Poll::Pending(
                        Transmit {
                            sock,
                            len,
                            phase: TransmitPhase::First {
                                n,
                                pointer: tx_pointer,
                                rest,
                                drain: W5100::write_raw_lease(sock.tx_addr + offset, to_end, 0),
                            },
                        },
                    )
                },
            },
            TransmitPhase::First { n, pointer, rest, drain } => match drain.resume(ev) {
                Poll::Pending(f) => Poll::Pending(
                    Transmit { sock, len, phase: TransmitPhase::First { n, pointer, rest, drain: f } },
                ),
                Poll::Ready(Err(e)) => Poll::Ready(Err(e)),
                Poll::Ready(Ok(())) => if rest > 0 {
                    Poll::Pending(
                        Transmit {
                            sock,
                            len,
                            phase: TransmitPhase::Second {
                                n,
                                pointer,
                                drain: W5100::write_raw_lease(sock.tx_addr, rest, (n - rest) as usize),
                            },
                        },
                    )
                } else {
                    Poll::Pending(self.advance(n, pointer))
                },
            },
            TransmitPhase::Second { n, pointer, drain } => match drain.resume(ev) {
                Poll::Pending(f) => Poll::Pending(
                    Transmit { sock, len, phase: TransmitPhase::Second { n, pointer, drain: f } },
                ),
                Poll::Ready(Err(e)) => Poll::Ready(Err(e)),
                Poll::Ready(Ok(())) => Poll::Pending(self.advance(n, pointer)),
            },
            TransmitPhase::Advance { n, pointer, wr } => match wr.resume(ev) {
                Poll::Pending(w) => Poll::Pending(
                    Transmit { sock, len, phase: TransmitPhase::Advance { n, pointer, wr: w } },
                ),
                Poll::Ready(Err(e)) => Poll::Ready(Err(RequestError::Runtime(e))),
                Poll::Ready(Ok(())) => Poll::Pending(
                    Transmit {
                        sock,
                        len,
                        phase: TransmitPhase::Command { n, wr: sock.send_command(Command::Send) },
                    },
                ),
            },
            TransmitPhase::Command { n, wr } => match wr.resume(ev) {
                Poll::Pending(w) => Poll::Pending(
                    Transmit { sock, len, phase: TransmitPhase::Command { n, wr: w } },
                ),
                Poll::Ready(Err(e)) => Poll::Ready(Err(RequestError::Runtime(e))),
                Poll::Ready(Ok(())) => Poll::Ready(Ok(n as usize)),
            },
        }
    }
}

impl Socket {
    /// Begins to move up to `len` bytes from the client's buffer into
    /// the socket's transmit buffer and to have them sent. It ends with
    /// the number of bytes moved; 0 says that there is no room now.
    pub fn send(&self, len: usize) -> (m: Transmit)
        requires
            self.wf(),
            len <= LEASE_LIMIT,
        ensures
            m == Transmit::start(*self, len),
            m.wf(),
    {
        Transmit {
            sock: *self,
            len,
            phase: TransmitPhase::Size(self.read_reg_u16(ReadableSocketRegisterU16::TxFsr)),
        }
    }
}

/// A receive asks for no more than the chip reported and no more than
/// the client's buffer holds: once the received size has been read from
/// the socket's received size register as `reported`, the receive ends
/// with 0 if that bound is 0, and goes on to move exactly
/// `min(len, reported)` bytes otherwise.
pub proof fn lemma_receive_bounded(rx: Receive, ev: Event, rd: ReadU16, reported: u16)
    requires
        rx.wf(),
        rx.phase == ReceivePhase::Size(rd),
        rd.step(ev) == Poll::<ReadU16, Result<u16, W5100Error>>::Ready(Ok(reported)),
    ensures
        rd.base() == SN_RX_RSR + rx.sock.register_offset,
        bounded(rx.len, reported) <= reported,
        bounded(rx.len, reported) <= rx.len,
        bounded(rx.len, reported) == 0 ==> rx.step(ev) == Poll::<
            Receive,
            Result<usize, RequestError>,
        >::Ready(Ok(0)),
        bounded(rx.len, reported) > 0 ==> rx.step(ev) == Poll::<
            Receive,
            Result<usize, RequestError>,
        >::Pending(
            Receive {
                phase: ReceivePhase::Pointer {
                    n: bounded(rx.len, reported),
                    rd: ReadU16::start(SN_RX_RD + rx.sock.register_offset),
                },
                ..rx
            },
        ),
{
    reveal(Receive::step);
}

/// How a receive lays its bytes out once the read pointer has been read
/// as `pointer`: the first part starts in the chip's buffer where the
/// pointer points, modulo the buffer's size, and in the client's buffer
/// at 0. It holds at least one byte. If the bytes reach past the end of
/// the chip's buffer, the first part ends exactly at that end and the
/// rest are left for a second part; otherwise the first part is all.
pub proof fn lemma_receive_first_part(rx: Receive, ev: Event, n: u16, rd: ReadU16, pointer: u16)
    requires
        rx.wf(),
        rx.phase == (ReceivePhase::Pointer { n, rd }),
        rd.step(ev) == Poll::<ReadU16, Result<u16, W5100Error>>::Ready(Ok(pointer)),
    ensures
        rd.base() == SN_RX_RD + rx.sock.register_offset,
        rx.step(ev) == Poll::<Receive, Result<usize, RequestError>>::Pending(rx.moving(n, pointer)),
        rx.moving(n, pointer).wf(),
        ({
            let offset = pointer as int % rx.sock.rx_size as int;
            let first = split_at_wrap(offset, n as int, rx.sock.rx_size as int).0;
            let rest = split_at_wrap(offset, n as int, rx.sock.rx_size as int).1;
            &&& rx.moving(n, pointer).phase == (ReceivePhase::First {
                n,
                pointer,
                rest: rest as u16,
                fill: ReadRawLease::start(rx.sock.rx_addr + offset, first as u16, 0),
            })
            &&& 1 <= first <= n
            &&& 0 <= rest < n
            &&& first + rest == n
            &&& rest > 0 <==> offset + n > rx.sock.rx_size
            &&& rest > 0 ==> offset + first == rx.sock.rx_size
        }),
{
    reveal(Receive::step);
}

/// When the first part of a receive is through and bytes are left, the
/// second part moves exactly those, from the beginning of the chip's
/// buffer to where the first part ended in the client's buffer; when
/// none are left, or when the second part is through, the read pointer
/// is moved on by the number of bytes moved, wrapping at 16 bits: the
/// next exchange writes its high byte.
pub proof fn lemma_receive_second_part(
    rx: Receive,
    ev: Event,
    n: u16,
    pointer: u16,
    rest: u16,
    part: ReadRawLease,
)
    requires
        rx.wf(),
        rx.phase == (ReceivePhase::First { n, pointer, rest, fill: part }) || (rest == 0 && rx.phase
            == (ReceivePhase::Second { n, pointer, fill: part })),
        part.step(ev) == Poll::<ReadRawLease, Result<(), RequestError>>::Ready(Ok(())),
    ensures
        rest > 0 ==> rx.step(ev) == Poll::<Receive, Result<usize, RequestError>>::Pending(
            Receive {
                phase: ReceivePhase::Second {
                    n,
                    pointer,
                    fill: ReadRawLease::start(rx.sock.rx_addr as int, rest, (n - rest) as usize),
                },
                ..rx
            },
        ),
        rest > 0 ==> 1 <= rest < n,
        rest == 0 ==> rx.step(ev) == Poll::<Receive, Result<usize, RequestError>>::Pending(
            rx.advancing(n, pointer),
        ),
        rx.advancing(n, pointer).pending() == Action::Exchange(
            stream(
                OP_WRITE,
                SN_RX_RD + rx.sock.register_offset,
                (advanced(pointer, n) / 256) as u8,
            ),
        ),
{
    reveal(Receive::step);
}

/// A receive fills the client's buffer in order and from the right
/// places: while bytes are moved, the transfer stands at some index of
/// the client's buffer, and the stream that it exchanges for that index
/// reads the register at the read pointer's place plus that index,
/// wrapped at the end of the chip's buffer; the byte that it then stores
/// at that index is the byte that came from that exchange.
pub proof fn lemma_receive_order(rx: Receive, pointer: u16, fill: ReadRawLease)
    requires
        rx.wf(),
        (rx.phase matches ReceivePhase::First { n, pointer: p, rest, fill: f } && p == pointer && f
            == fill) || (rx.phase matches ReceivePhase::Second { n, pointer: p, fill: f } && p
            == pointer && f == fill),
    ensures
        rx.count() matches Some(n) && fill.pos < n && n <= rx.len,
        fill.cmd == stream(OP_READ, rx.source(pointer, fill.pos as int), 0),
        fill.holding is None ==> rx.pending() == Action::Exchange(fill.cmd),
        fill.holding matches Some(b) ==> rx.pending() == Action::LeaseWrite(fill.pos, b),
        forall|b: u8| fill.holding is None ==> (#[trigger] fill.step(Event::Exchanged(b)))
            == Poll::<ReadRawLease, Result<(), RequestError>>::Pending(
            ReadRawLease { holding: Some(b), ..fill },
        ),
        rx.phase is First ==> rx.source(pointer, fill.pos as int) == rx.sock.rx_addr + pointer
            % rx.sock.rx_size + fill.pos,
        rx.phase is Second ==> rx.source(pointer, fill.pos as int) == rx.sock.rx_addr + pointer
            % rx.sock.rx_size + fill.pos - rx.sock.rx_size,
{
}

/// At every step of a receive: the receive stays well formed, so no
/// transfer of zero bytes is ever begun; the number of bytes to move,
/// once chosen, stays; every byte is stored in the client's buffer below
/// that number; and the receive ends in success only with that number,
/// after the command that tells the chip.
#[verifier::rlimit(40)]
pub proof fn lemma_receive_step(rx: Receive, ev: Event)
    requires
        rx.wf(),
        rx.pending().answered_by(ev),
    ensures
        rx.step(ev) matches Poll::Pending(m) ==> m.wf() && m.sock == rx.sock && m.len == rx.len
            && (rx.count() is Some ==> m.count() == rx.count()),
        rx.pending() matches Action::LeaseWrite(i, b) ==> rx.count() matches Some(n) && i < n
            && i < rx.len,
        rx.step(ev) matches Poll::Ready(Ok(k)) ==> k <= rx.len && {
            ||| rx.phase is Size && k == 0
            ||| rx.phase is Command && rx.count() == Some(k as u16) && k >= 1
        },
{
    reveal(Receive::step);
    match rx.phase {
        ReceivePhase::Size(rd) => {
            lemma_read_u16_wf(rd, ev);
        },
        ReceivePhase::Pointer { n, rd } => {
            lemma_read_u16_wf(rd, ev);
        },
        ReceivePhase::First { n, pointer, rest, fill } => {
            lemma_read_raw_lease_step(fill, ev);
        },
        ReceivePhase::Second { n, pointer, fill } => {
            lemma_read_raw_lease_step(fill, ev);
        },
        ReceivePhase::Advance { n, pointer, wr } => {
            lemma_write_raw_step(wr, ev);
        },
        ReceivePhase::Command { n, wr } => {
            lemma_write_raw_step(wr, ev);
        },
    }
}

/// A send asks for no more room than the chip reported free and takes
/// no more than the client's buffer holds: once the free size has been
/// read from the socket's free size register as `reported`, the send
/// ends with 0 if that bound is 0, and goes on to move exactly
/// `min(len, reported)` bytes otherwise.
pub proof fn lemma_transmit_bounded(tx: Transmit, ev: Event, rd: ReadU16, reported: u16)
    requires
        tx.wf(),
        tx.phase == TransmitPhase::Size(rd),
        rd.step(ev) == Poll::<ReadU16, Result<u16, W5100Error>>::Ready(Ok(reported)),
    ensures
        rd.base() == SN_TX_FSR + tx.sock.register_offset,
        bounded(tx.len, reported) <= reported,
        bounded(tx.len, reported) <= tx.len,
        bounded(tx.len, reported) == 0 ==> tx.step(ev) == Poll::<
            Transmit,
            Result<usize, RequestError>,
        >::Ready(Ok(0)),
        bounded(tx.len, reported) > 0 ==> tx.step(ev) == Poll::<
            Transmit,
            Result<usize, RequestError>,
        >::Pending(
            Transmit {
                phase: TransmitPhase::Pointer {
                    n: bounded(tx.len, reported),
                    rd: ReadU16::start(SN_TX_WR + tx.sock.register_offset),
                },
                ..tx
            },
        ),
{
    reveal(Transmit::step);
}

/// How a send lays its bytes out once the write pointer has been read
/// as `pointer`: the first part starts in the chip's buffer where the
/// pointer points, modulo the buffer's size, and in the client's buffer
/// at 0. It holds at least one byte. If the bytes reach past the end of
/// the chip's buffer, the first part ends exactly at that end and the
/// rest are left for a second part; otherwise the first part is all.
pub proof fn lemma_transmit_first_part(tx: Transmit, ev: Event, n: u16, rd: ReadU16, pointer: u16)
    requires
        tx.wf(),
        tx.phase == (TransmitPhase::Pointer { n, rd }),
        rd.step(ev) == Poll::<ReadU16, Result<u16, W5100Error>>::Ready(Ok(pointer)),
    ensures
        rd.base() == SN_TX_WR + tx.sock.register_offset,
        tx.step(ev) == Poll::<Transmit, Result<usize, RequestError>>::Pending(tx.moving(n, pointer)),
        tx.moving(n, pointer).wf(),
        ({
            let offset = pointer as int % tx.sock.tx_size as int;
            let first = split_at_wrap(offset, n as int, tx.sock.tx_size as int).0;
            let rest = split_at_wrap(offset, n as int, tx.sock.tx_size as int).1;
            &&& tx.moving(n, pointer).phase == (TransmitPhase::First {
                n,
                pointer,
                rest: rest as u16,
                drain: WriteRawLease::start(tx.sock.tx_addr + offset, first as u16, 0),
            })
            &&& 1 <= first <= n
            &&& 0 <= rest < n
            &&& first + rest == n
            &&& rest > 0 <==> offset + n > tx.sock.tx_size
            &&& rest > 0 ==> offset + first == tx.sock.tx_size
        }),
{
    reveal(Transmit::step);
}

/// When the first part of a send is through and bytes are left, the
/// second part moves exactly those, to the beginning of the chip's
/// buffer from where the first part ended in the client's buffer; when
/// none are left, or when the second part is through, the write pointer
/// is moved on by the number of bytes moved, wrapping at 16 bits: the
/// next exchange writes its high byte.
pub proof fn lemma_transmit_second_part(
    tx: Transmit,
    ev: Event,
    n: u16,
    pointer: u16,
    rest: u16,
    part: WriteRawLease,
)
    requires
        tx.wf(),
        tx.phase == (TransmitPhase::First { n, pointer, rest, drain: part }) || (rest == 0 && tx.phase
            == (TransmitPhase::Second { n, pointer, drain: part })),
        part.step(ev) == Poll::<WriteRawLease, Result<(), RequestError>>::Ready(Ok(())),
    ensures
        rest > 0 ==> tx.step(ev) == Poll::<Transmit, Result<usize, RequestError>>::Pending(
            Transmit {
                phase: TransmitPhase::Second {
                    n,
                    pointer,
                    drain: WriteRawLease::start(tx.sock.tx_addr as int, rest, (n - rest) as usize),
                },
                ..tx
            },
        ),
        rest > 0 ==> 1 <= rest < n,
        rest == 0 ==> tx.step(ev) == Poll::<Transmit, Result<usize, RequestError>>::Pending(
            tx.advancing(n, pointer),
        ),
        tx.advancing(n, pointer).pending() == Action::Exchange(
            stream(
                OP_WRITE,
                SN_TX_WR + tx.sock.register_offset,
                (advanced(pointer, n) / 256) as u8,
            ),
        ),
{
    reveal(Transmit::step);
}

/// A send empties the client's buffer in order and into the right
/// places: while bytes are moved, the transfer stands at some index of
/// the client's buffer, fetches the byte at that index, and the stream
/// that it then exchanges writes that byte to the register at the write
/// pointer's place plus that index, wrapped at the end of the chip's
/// buffer.
pub proof fn lemma_transmit_order(tx: Transmit, pointer: u16, drain: WriteRawLease)
    requires
        tx.wf(),
        (tx.phase matches TransmitPhase::First { n, pointer: p, rest, drain: f } && p == pointer
            && f == drain) || (tx.phase matches TransmitPhase::Second { n, pointer: p, drain: f }
            && p == pointer && f == drain),
    ensures
        tx.count() matches Some(n) && drain.pos < n && n <= tx.len,
        drain.cmd == stream(OP_WRITE, tx.target(pointer, drain.pos as int), drain.cmd.data),
        !drain.loaded ==> tx.pending() == Action::LeaseRead(drain.pos),
        drain.loaded ==> tx.pending() == Action::Exchange(drain.cmd),
        forall|b: u8| !drain.loaded ==> (#[trigger] drain.step(Event::LeaseByte(b))) == Poll::<
            WriteRawLease,
            Result<(), RequestError>,
        >::Pending(
            WriteRawLease {
                cmd: stream(OP_WRITE, tx.target(pointer, drain.pos as int), b),
                loaded: true,
                ..drain
            },
        ),
        tx.phase is First ==> tx.target(pointer, drain.pos as int) == tx.sock.tx_addr + pointer
            % tx.sock.tx_size + drain.pos,
        tx.phase is Second ==> tx.target(pointer, drain.pos as int) == tx.sock.tx_addr + pointer
            % tx.sock.tx_size + drain.pos - tx.sock.tx_size,
{
}

/// At every step of a send: the send stays well formed, so no transfer
/// of zero bytes is ever begun; the number of bytes to move, once
/// chosen, stays; every byte is fetched from the client's buffer below
/// that number; and the send ends in success only with that number,
/// after the command that tells the chip to send.
#[verifier::rlimit(40)]
pub proof fn lemma_transmit_step(tx: Transmit, ev: Event)
    requires
        tx.wf(),
        tx.pending().answered_by(ev),
    ensures
        tx.step(ev) matches Poll::Pending(m) ==> m.wf() && m.sock == tx.sock && m.len == tx.len
            && (tx.count() is Some ==> m.count() == tx.count()),
        tx.pending() matches Action::LeaseRead(i) ==> tx.count() matches Some(n) && i < n
            && i < tx.len,
        tx.step(ev) matches Poll::Ready(Ok(k)) ==> k <= tx.len && {
            ||| tx.phase is Size && k == 0
            ||| tx.phase is Command && tx.count() == Some(k as u16) && k >= 1
        },
{
    reveal(Transmit::step);
    match tx.phase {
        TransmitPhase::Size(rd) => {
            lemma_read_u16_wf(rd, ev);
        },
        TransmitPhase::Pointer { n, rd } => {
            lemma_read_u16_wf(rd, ev);
        },
        TransmitPhase::First { n, pointer, rest, drain } => {
            lemma_write_raw_lease_step(drain, ev);
        },
        TransmitPhase::Second { n, pointer, drain } => {
            lemma_write_raw_lease_step(drain, ev);
        },
        TransmitPhase::Advance { n, pointer, wr } => {
            lemma_write_raw_step(wr, ev);
        },
        TransmitPhase::Command { n, wr } => {
            lemma_write_raw_step(wr, ev);
        },
    }
}

/// While a receive moves no more bytes than the socket's receive buffer
/// holds, which is so whenever the chip reports no more than that, every
/// register that it reads lies in that buffer, and so in the chip's
/// socket memory.
pub proof fn lemma_receive_in_window(rx: Receive, pointer: u16, i: int)
    requires
        rx.sock.wf(),
        0 <= i < rx.sock.rx_size,
    ensures
        rx.sock.rx_addr <= rx.source(pointer, i) < rx.sock.rx_addr + rx.sock.rx_size,
        0x4000 <= rx.source(pointer, i) < 0x8000,
{
}

/// While a send moves no more bytes than the socket's transmit buffer
/// holds, which is so whenever the chip reports no more free than that,
/// every register that it writes lies in that buffer, and so in the
/// chip's socket memory.
pub proof fn lemma_transmit_in_window(tx: Transmit, pointer: u16, i: int)
    requires
        tx.sock.wf(),
        0 <= i < tx.sock.tx_size,
    ensures
        tx.sock.tx_addr <= tx.target(pointer, i) < tx.sock.tx_addr + tx.sock.tx_size,
        0x4000 <= tx.target(pointer, i) < 0x8000,
{
}

} // verus!
