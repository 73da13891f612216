//! The TCP session on one socket: `Init`, then `Listening`, then
//! `Established`, then closed. Every transition issues a command to the
//! chip and goes by what the status register then reports; whenever
//! that is not what the transition can go on with, the socket is closed
//! on the chip before the fault is reported.
//!
//! A socket in a given state is a value of its own type. To listen, to
//! accept and to close take that value, so that a state that was left
//! cannot be used again, and only the operation that was begun on it
//! yields the socket in its next state. The operations in progress are
//! plain data with public fields, so that their contracts can be read
//! and proved against; one that is built by hand rather than begun
//! stands outside what these types keep.

use vstd::prelude::*;
use core::marker::PhantomData;
use crate::bus::{Action, Event, Poll};
use crate::error::{RequestError, W5100Error};
use crate::w5100::buffer::{lemma_receive_step, lemma_transmit_step, Receive, Transmit};
use crate::w5100::socket::{
    Command, Mode, Socket, SocketIndex, Status, LEASE_LIMIT, MODE_PROTO_TCP, SN_CR, SN_MR, SN_PORT,
    SN_SR,
};
use crate::w5100::spi_stream::{stream, OP_READ, OP_WRITE};
use crate::w5100::{lemma_write_raw_step, Payload, ReadU8, WriteRaw, W5100};

verus! {

/// Milliseconds to sleep between two looks at a listening socket.
pub const ACCEPT_POLL_MS: u64 = 100;

/// Milliseconds to sleep after a receive that found nothing.
pub const READ_POLL_MS: u64 = 10;

/// State of a socket that has been opened.
#[derive(Debug, PartialEq, Eq)]
pub struct Init;

/// State of a socket that waits for a peer.
#[derive(Debug, PartialEq, Eq)]
pub struct Listening;

/// State of a socket that is connected to a peer.
#[derive(Debug, PartialEq, Eq)]
pub struct Established;

/// A socket in the state `State`.
#[derive(Debug, PartialEq, Eq)]
pub struct TcpSocket<State> {
    socket: Socket,
    marker: PhantomData<State>,
}

impl<T> TcpSocket<T> {
    /// The socket in state `T` that lies at `socket`.
    pub closed spec fn on(socket: Socket) -> TcpSocket<T> {
        TcpSocket { socket, marker: PhantomData }
    }

    /// Where the socket lies.
    pub closed spec fn place(self) -> Socket {
        self.socket
    }

    #[verifier::type_invariant]
    spec fn inv(self) -> bool {
        self.socket.wf()
    }

    /// Where the socket lies.
    pub fn socket(&self) -> (s: Socket)
        ensures
            s == self.place(),
            s.wf(),
            *self == TcpSocket::<T>::on(s),
    {
        proof {
            use_type_invariant(self);
        }
        self.socket
    }

    /// Begins to close the socket on the chip, and yields `error` once
    /// that is done.
    pub fn fail(&self, error: W5100Error) -> (m: Fail)
        ensures
            m == Fail::start(self.place(), error),
            m.wf(),
    {
        Fail { error, wr: self.close_raw() }
    }

    /// Begins to write the `Close` command.
    pub fn close_raw(&self) -> (m: WriteRaw)
        ensures
            m == WriteRaw::start(
                SN_CR + self.place().register_offset,
                Payload::One(Command::Close.code()),
            ),
            m.wf(),
    {
        proof {
            use_type_invariant(self);
        }
        self.socket.send_command(Command::Close)
    }

    /// The socket in another state.
    fn new_state<U>(self) -> (t: TcpSocket<U>)
        ensures
            t == TcpSocket::<U>::on(self.place()),
    {
        proof {
            use_type_invariant(&self);
        }
        TcpSocket { socket: self.socket, marker: PhantomData }
    }

    /// The socket at `socket`, for the operation that holds it meanwhile.
    fn at(socket: Socket) -> (t: TcpSocket<T>)
        requires
            socket.wf(),
        ensures
            t == TcpSocket::<T>::on(socket),
    {
        TcpSocket { socket, marker: PhantomData }
    }
}

/// A socket lies where it was put, and two sockets in one state that
/// lie at one place are the same.
pub proof fn lemma_place<T>(socket: Socket, t: TcpSocket<T>)
    ensures
        TcpSocket::<T>::on(socket).place() == socket,
        TcpSocket::<T>::on(t.place()) == t,
{
}

/// The forced close of a socket after a fault, in progress.
#[derive(Clone, Copy, Debug, PartialEq, Eq, Structural)]
pub struct Fail {
    /// The fault.
    pub error: W5100Error,
    /// The write of the `Close` command.
    pub wr: WriteRaw,
}

impl Fail {
    /// The forced close before its first action.
    pub open spec fn start(sock: Socket, error: W5100Error) -> Fail {
        Fail {
            error,
            wr: WriteRaw::start(
                SN_CR + sock.register_offset,
                Payload::One(Command::Close.code()),
            ),
        }
    }

    /// What holds of the forced close at every step.
    pub open spec fn wf(self) -> bool {
        self.wr.wf()
    }

    /// The close is that of the socket at `sock`, and `Close` has not
    /// gone out yet.
    pub open spec fn closes(self, sock: Socket) -> bool {
        self == Fail::start(sock, self.error)
    }

    /// What the forced close is waiting for.
    pub open spec fn pending(self) -> Action {
        self.wr.pending()
    }

    /// The close after `ev`: it yields the fault once `Close` has been
    /// written, and the transport's failure if it could not be written.
    pub open spec fn step(self, ev: Event) -> Poll<Fail, W5100Error> {
        match self.wr.step(ev) {
            Poll::Pending(w) => Poll::Pending(Fail { wr: w, ..self }),
            Poll::Ready(Err(e)) => Poll::Ready(e),
            Poll::Ready(Ok(())) => Poll::Ready(self.error),
        }
    }

    /// What the forced close is waiting for: the action to perform next.
    pub fn action(&self) -> (a: Action)
        ensures
            a == self.pending(),
    {
        self.wr.action()
    }

    /// Takes what came of the awaited action and goes on.
    pub fn resume(self, ev: Event) -> (r: Poll<Fail, W5100Error>)
        requires
            self.wf(),
            self.pending().answered_by(ev),
        ensures
            r == self.step(ev),
            r matches Poll::Pending(m) ==> m.wf(),
    {
        match self.wr.resume(ev) {
            Poll::Pending(w) => Poll::Pending(Fail { error: self.error, wr: w }),
            Poll::Ready(Err(e)) => Poll::Ready(e),
            Poll::Ready(Ok(())) => Poll::Ready(self.error),
        }
    }
}

/// Where an open stands.
#[derive(Clone, Copy, Debug, PartialEq, Eq, Structural)]
pub enum OpenPhase {
    /// The protocol is being set to TCP.
    Mode(WriteRaw),
    /// The source port is being written.
    Port(WriteRaw),
    /// The `Open` command is being written.
    Command(WriteRaw),
    /// The status is being read.
    Status(ReadU8),
    /// The chip did not open the socket; the socket is being closed.
    Failing(Fail),
}

/// An open in progress.
#[derive(Clone, Copy, Debug, PartialEq, Eq, Structural)]
pub struct Open {
    pub sock: Socket,
    pub port: u16,
    pub phase: OpenPhase,
}

impl Open {
    /// The open before its first action.
    pub open spec fn start(sock: Socket, port: u16) -> Open {
        Open {
            sock,
            port,
            phase: OpenPhase::Mode(
                WriteRaw::start(SN_MR + sock.register_offset, Payload::One(MODE_PROTO_TCP)),
            ),
        }
    }

    /// What holds of the open at every step.
    pub open spec fn wf(self) -> bool {
        &&& self.sock.wf()
        &&& match self.phase {
            OpenPhase::Mode(wr) => wr == WriteRaw::start(
                SN_MR + self.sock.register_offset,
                Payload::One(MODE_PROTO_TCP),
            ),
            OpenPhase::Port(wr) => wr.wf() && wr.base() == SN_PORT + self.sock.register_offset
                && wr.data == Payload::of_u16(self.port),
            OpenPhase::Command(wr) => wr == WriteRaw::start(
                SN_CR + self.sock.register_offset,
                Payload::One(Command::Open.code()),
            ),
            OpenPhase::Status(rd) => rd == ReadU8::start(SN_SR + self.sock.register_offset),
            OpenPhase::Failing(f) => f.wf() && f.closes(self.sock),
        }
    }

    /// The open as it begins to close the socket after the fault `error`.
    pub open spec fn failing(self, error: W5100Error) -> Open {
        Open { phase: OpenPhase::Failing(Fail::start(self.sock, error)), ..self }
    }

    /// What the open is waiting for.
    pub open spec fn pending(self) -> Action {
        match self.phase {
            OpenPhase::Mode(wr) => wr.pending(),
            OpenPhase::Port(wr) => wr.pending(),
            OpenPhase::Command(wr) => wr.pending(),
            OpenPhase::Status(rd) => rd.pending(),
            OpenPhase::Failing(f) => f.pending(),
        }
    }

    /// The open after `ev`: the protocol is set to TCP, the source port
    /// is written, `Open` is issued and the status is read. The socket
    /// is open if and only if the status is `Init`. On any other status,
    /// and on a byte that is no status, the socket is closed before the
    /// failure is reported. A failure of the transport ends the open at
    /// once.
    pub open spec fn step(self, ev: Event) -> Poll<Open, Result<TcpSocket<Init>, W5100Error>> {
        match self.phase {
            OpenPhase::Mode(wr) => match wr.step(ev) {
                Poll::Pending(w) => Poll::Pending(Open { phase: OpenPhase::Mode(w), ..self }),
                Poll::Ready(Err(e)) => Poll::Ready(Err(e)),
                Poll::Ready(Ok(())) => Poll::Pending(
                    Open {
                        phase: OpenPhase::Port(
                            WriteRaw::start(
                                SN_PORT + self.sock.register_offset,
                                Payload::of_u16(self.port),
                            ),
                        ),
                        ..self
                    },
                ),
            },
            OpenPhase::Port(wr) => match wr.step(ev) {
                Poll::Pending(w) => Poll::Pending(Open { phase: OpenPhase::Port(w), ..self }),
                Poll::Ready(Err(e)) => Poll::Ready(Err(e)),
                Poll::Ready(Ok(())) => Poll::Pending(
                    Open {
                        phase: OpenPhase::Command(
                            WriteRaw::start(
                                SN_CR + self.sock.register_offset,
                                Payload::One(Command::Open.code()),
                            ),
                        ),
                        ..self
                    },
                ),
            },
            OpenPhase::Command(wr) => match wr.step(ev) {
                Poll::Pending(w) => Poll::Pending(Open { phase: OpenPhase::Command(w), ..self }),
                Poll::Ready(Err(e)) => Poll::Ready(Err(e)),
                Poll::Ready(Ok(())) => Poll::Pending(
                    Open {
                        phase: OpenPhase::Status(ReadU8::start(SN_SR + self.sock.register_offset)),
                        ..self
                    },
                ),
            },
            OpenPhase::Status(rd) => match Socket::status_after(rd, ev) {
                Ok(Status::Init) => Poll::Ready(Ok(TcpSocket::on(self.sock))),
                Ok(_) => Poll::Pending(self.failing(W5100Error::OpenFailed)),
                Err(W5100Error::UnknownSocketStatus(raw)) => Poll::Pending(
                    self.failing(W5100Error::UnknownSocketStatus(raw)),
                ),
                Err(e) => Poll::Ready(Err(e)),
            },
            OpenPhase::Failing(f) => match f.step(ev) {
                Poll::Pending(g) => Poll::Pending(Open { phase: OpenPhase::Failing(g), ..self }),
                Poll::Ready(e) => Poll::Ready(Err(e)),
            },
        }
    }

    /// What the open is waiting for: the action to perform next.
    pub fn action(&self) -> (a: Action)
        ensures
            a == self.pending(),
    {
        match self.phase {
            OpenPhase::Mode(wr) => wr.action(),
            OpenPhase::Port(wr) => wr.action(),
            OpenPhase::Command(wr) => wr.action(),
            OpenPhase::Status(rd) => rd.action(),
            OpenPhase::Failing(f) => f.action(),
        }
    }

    /// Enters the forced close after the fault `error`.
    fn fail(self, error: W5100Error) -> (m: Open)
        requires
            self.wf(),
        ensures
            m == self.failing(error),
            m.wf(),
    {
        let this: TcpSocket<Init> = TcpSocket::at(self.sock);
        proof {
            lemma_place::<Init>(self.sock, this);
        }
        Open { sock: self.sock, port: self.port, phase: OpenPhase::Failing(this.fail(error)) }
    }

    /// Takes what came of the awaited action and goes on.
    pub fn resume(self, ev: Event) -> (r: Poll<Open, Result<TcpSocket<Init>, W5100Error>>)
        requires
            self.wf(),
            self.pending().answered_by(ev),
        ensures
            r == self.step(ev),
            r matches Poll::Pending(m) ==> m.wf() && m.sock == self.sock,
            r matches Poll::Ready(Ok(t)) ==> t.place() == self.sock,
    {
        let sock = self.sock;
        let port = self.port;
        match self.phase {
            OpenPhase::Mode(wr) => match wr.resume(ev) {
                Poll::Pending(w) => Poll::Pending(Open { sock, port, phase: OpenPhase::Mode(w) }),
                Poll::Ready(Err(e)) => Poll::Ready(Err(e)),
                Poll::Ready(Ok(())) => Poll::Pending(
                    Open { sock, port, phase: OpenPhase::Port(sock.set_source_port(port)) },
                ),
            },
            OpenPhase::Port(wr) => match wr.resume(ev) {
                Poll::Pending(w) => Poll::Pending(Open { sock, port, phase: OpenPhase::Port(w) }),
                Poll::Ready(Err(e)) => Poll::Ready(Err(e)),
                Poll::Ready(Ok(())) => Poll::Pending(
                    Open { sock, port, phase: OpenPhase::Command(sock.send_command(Command::Open)) },
                ),
            },
            OpenPhase::Command(wr) => match wr.resume(ev) {
                Poll::Pending(w) => Poll::Pending(
                    Open { sock, port, phase: OpenPhase::Command(w) },
                ),
                Poll::Ready(Err(e)) => Poll::Ready(Err(e)),
                Poll::Ready(Ok(())) => Poll::Pending(
                    Open { sock, port, phase: OpenPhase::Status(sock.status()) },
                ),
            },
            OpenPhase::Status(rd) => match Socket::finish_status(rd, ev) {
                Ok(Status::Init) => Poll::Ready(Ok(TcpSocket::at(sock))),
                Ok(_) => Poll::Pending(self.fail(W5100Error::OpenFailed)),
                Err(W5100Error::UnknownSocketStatus(raw)) => Poll::Pending(
                    self.fail(W5100Error::UnknownSocketStatus(raw)),
                ),
                Err(e) => Poll::Ready(Err(e)),
            },
            OpenPhase::Failing(f) => match f.resume(ev) {
                Poll::Pending(g) => Poll::Pending(Open { sock, port, phase: OpenPhase::Failing(g) }),
                Poll::Ready(e) => Poll::Ready(Err(e)),
            },
        }
    }
}

/// Where a listen stands.
#[derive(Clone, Copy, Debug, PartialEq, Eq, Structural)]
pub enum ListenPhase {
    /// The `Listen` command is being written.
    Command(WriteRaw),
    /// The status is being read.
    Status(ReadU8),
    /// The chip did not listen; the socket is being closed.
    Failing(Fail),
}

/// A listen in progress.
#[derive(Clone, Copy, Debug, PartialEq, Eq, Structural)]
pub struct Listen {
    pub sock: Socket,
    pub phase: ListenPhase,
}

impl Listen {
    /// The listen before its first action.
    pub open spec fn start(sock: Socket) -> Listen {
        Listen {
            sock,
            phase: ListenPhase::Command(
                WriteRaw::start(
                    SN_CR + sock.register_offset,
                    Payload::One(Command::Listen.code()),
                ),
            ),
        }
    }

    /// What holds of the listen at every step.
    pub open spec fn wf(self) -> bool {
        &&& self.sock.wf()
        &&& match self.phase {
            ListenPhase::Command(wr) => wr == WriteRaw::start(
                SN_CR + self.sock.register_offset,
                Payload::One(Command::Listen.code()),
            ),
            ListenPhase::Status(rd) => rd == ReadU8::start(SN_SR + self.sock.register_offset),
            ListenPhase::Failing(f) => f.wf() && f.closes(self.sock),
        }
    }

    /// The listen as it begins to close the socket after the fault
    /// `error`.
    pub open spec fn failing(self, error: W5100Error) -> Listen {
        Listen { phase: ListenPhase::Failing(Fail::start(self.sock, error)), ..self }
    }

    /// What the listen is waiting for.
    pub open spec fn pending(self) -> Action {
        match self.phase {
            ListenPhase::Command(wr) => wr.pending(),
            ListenPhase::Status(rd) => rd.pending(),
            ListenPhase::Failing(f) => f.pending(),
        }
    }

    /// The listen after `ev`: `Listen` is issued and the status is read.
    /// The socket listens if and only if the status is `Listen`; on any
    /// other status, and on a byte that is no status, the socket is
    /// closed before the failure is reported. A failure of the transport
    /// ends the listen at once.
    pub open spec fn step(self, ev: Event) -> Poll<
        Listen,
        Result<TcpSocket<Listening>, W5100Error>,
    > {
        match self.phase {
            ListenPhase::Command(wr) => match wr.step(ev) {
                Poll::Pending(w) => Poll::Pending(Listen { phase: ListenPhase::Command(w), ..self }),
                Poll::Ready(Err(e)) => Poll::Ready(Err(e)),
                Poll::Ready(Ok(())) => Poll::Pending(
                    Listen {
                        phase: ListenPhase::Status(ReadU8::start(SN_SR + self.sock.register_offset)),
                        ..self
                    },
                ),
            },
            ListenPhase::Status(rd) => match Socket::status_after(rd, ev) {
                Ok(Status::Listen) => Poll::Ready(Ok(TcpSocket::on(self.sock))),
                Ok(_) => Poll::Pending(self.failing(W5100Error::ListenFailed)),
                Err(W5100Error::UnknownSocketStatus(raw)) => Poll::Pending(
                    self.failing(W5100Error::UnknownSocketStatus(raw)),
                ),
                Err(e) => Poll::Ready(Err(e)),
            },
            ListenPhase::Failing(f) => match f.step(ev) {
                Poll::Pending(g) => Poll::Pending(Listen { phase: ListenPhase::Failing(g), ..self }),
                Poll::Ready(e) => Poll::Ready(Err(e)),
            },
        }
    }

    /// What the listen is waiting for: the action to perform next.
    pub fn action(&self) -> (a: Action)
        ensures
            a == self.pending(),
    {
        match self.phase {
            ListenPhase::Command(wr) => wr.action(),
            ListenPhase::Status(rd) => rd.action(),
            ListenPhase::Failing(f) => f.action(),
        }
    }

    /// Enters the forced close after the fault `error`.
    fn fail(self, error: W5100Error) -> (m: Listen)
        requires
            self.wf(),
        ensures
            m == self.failing(error),
            m.wf(),
    {
        let this: TcpSocket<Init> = TcpSocket::at(self.sock);
        proof {
            lemma_place::<Init>(self.sock, this);
        }
        Listen { sock: self.sock, phase: ListenPhase::Failing(this.fail(error)) }
    }

    /// Takes what came of the awaited action and goes on.
    pub fn resume(self, ev: Event) -> (r: Poll<Listen, Result<TcpSocket<Listening>, W5100Error>>)
        requires
            self.wf(),
            self.pending().answered_by(ev),
        ensures
            r == self.step(ev),
            r matches Poll::Pending(m) ==> m.wf() && m.sock == self.sock,
            r matches Poll::Ready(Ok(t)) ==> t.place() == self.sock,
    {
        let sock = self.sock;
        match self.phase {
            ListenPhase::Command(wr) => match wr.resume(ev) {
                Poll::Pending(w) => Poll::Pending(Listen { sock, phase: ListenPhase::Command(w) }),
                Poll::Ready(Err(e)) => Poll::Ready(Err(e)),
                Poll::Ready(Ok(())) => Poll::Pending(
                    Listen { sock, phase: ListenPhase::Status(sock.status()) },
                ),
            },
            ListenPhase::Status(rd) => match Socket::finish_status(rd, ev) {
                Ok(Status::Listen) => {
                    let this: TcpSocket<Init> = TcpSocket::at(sock);
                    proof {
                        lemma_place::<Init>(sock, this);
                    }
                    Poll::Ready(Ok(this.new_state()))
                },
                Ok(_) => Poll::Pending(self.fail(W5100Error::ListenFailed)),
                Err(W5100Error::UnknownSocketStatus(raw)) => Poll::Pending(
                    self.fail(W5100Error::UnknownSocketStatus(raw)),
                ),
                Err(e) => Poll::Ready(Err(e)),
            },
            ListenPhase::Failing(f) => match f.resume(ev) {
                Poll::Pending(g) => Poll::Pending(Listen { sock, phase: ListenPhase::Failing(g) }),
                Poll::Ready(e) => Poll::Ready(Err(e)),
            },
        }
    }
}

/// Where an accept stands.
#[derive(Clone, Copy, Debug, PartialEq, Eq, Structural)]
pub enum AcceptPhase {
    /// The status is being read.
    Status(ReadU8),
    /// Still listening; sleeping before the next look.
    Napping,
    /// The chip left the listening state for another than
    /// `Established`; the socket is being closed.
    Failing(Fail),
}

/// An accept in progress.
#[derive(Clone, Copy, Debug, PartialEq, Eq, Structural)]
pub struct Accept {
    pub sock: Socket,
    pub phase: AcceptPhase,
}

impl Accept {
    /// The accept before its first action.
    pub open spec fn start(sock: Socket) -> Accept {
        Accept { sock, phase: AcceptPhase::Status(ReadU8::start(SN_SR + sock.register_offset)) }
    }

    /// What holds of the accept at every step.
    pub open spec fn wf(self) -> bool {
        &&& self.sock.wf()
        &&& match self.phase {
            AcceptPhase::Status(rd) => rd == ReadU8::start(SN_SR + self.sock.register_offset),
            AcceptPhase::Napping => true,
            AcceptPhase::Failing(f) => f.wf() && f.closes(self.sock),
        }
    }

    /// The accept as it begins to close the socket after the fault
    /// `error`.
    pub open spec fn failing(self, error: W5100Error) -> Accept {
        Accept { phase: AcceptPhase::Failing(Fail::start(self.sock, error)), ..self }
    }

    /// What the accept is waiting for.
    pub open spec fn pending(self) -> Action {
        match self.phase {
            AcceptPhase::Status(rd) => rd.pending(),
            AcceptPhase::Napping => Action::Sleep(ACCEPT_POLL_MS),
            AcceptPhase::Failing(f) => f.pending(),
        }
    }

    /// The accept after `ev`: the status is read again and again, with
    /// a sleep after each `Listen`. The socket is connected as soon as
    /// the status is `Established`; on any third status, and on a byte
    /// that is no status, the socket is closed, and the failure carries
    /// what was read. A failure of the transport ends the accept at
    /// once.
    pub open spec fn step(self, ev: Event) -> Poll<
        Accept,
        Result<TcpSocket<Established>, W5100Error>,
    > {
        match self.phase {
            AcceptPhase::Status(rd) => match Socket::status_after(rd, ev) {
                Ok(Status::Listen) => Poll::Pending(Accept { phase: AcceptPhase::Napping, ..self }),
                Ok(Status::Established) => Poll::Ready(Ok(TcpSocket::on(self.sock))),
                Ok(other) => Poll::Pending(
                    self.failing(W5100Error::BadSocketState(other.code())),
                ),
                Err(W5100Error::UnknownSocketStatus(raw)) => Poll::Pending(
                    self.failing(W5100Error::UnknownSocketStatus(raw)),
                ),
                Err(e) => Poll::Ready(Err(e)),
            },
            AcceptPhase::Napping => Poll::Pending(Accept::start(self.sock)),
            AcceptPhase::Failing(f) => match f.step(ev) {
                Poll::Pending(g) => Poll::Pending(Accept { phase: AcceptPhase::Failing(g), ..self }),
                Poll::Ready(e) => Poll::Ready(Err(e)),
            },
        }
    }

    /// What the accept is waiting for: the action to perform next.
    pub fn action(&self) -> (a: Action)
        ensures
            a == self.pending(),
    {
        match self.phase {
            AcceptPhase::Status(rd) => rd.action(),
            AcceptPhase::Napping => Action::Sleep(ACCEPT_POLL_MS),
            AcceptPhase::Failing(f) => f.action(),
        }
    }

    /// Enters the forced close after the fault `error`.
    fn fail(self, error: W5100Error) -> (m: Accept)
        requires
            self.wf(),
        ensures
            m == self.failing(error),
            m.wf(),
    {
        let this: TcpSocket<Listening> = TcpSocket::at(self.sock);
        proof {
            lemma_place::<Listening>(self.sock, this);
        }
        Accept { sock: self.sock, phase: AcceptPhase::Failing(this.fail(error)) }
    }

    /// Takes what came of the awaited action and goes on.
    pub fn resume(self, ev: Event) -> (r: Poll<Accept, Result<TcpSocket<Established>, W5100Error>>)
        requires
            self.wf(),
            self.pending().answered_by(ev),
        ensures
            r == self.step(ev),
            r matches Poll::Pending(m) ==> m.wf() && m.sock == self.sock,
            r matches Poll::Ready(Ok(t)) ==> t.place() == self.sock,
    {
        let sock = self.sock;
        match self.phase {
            AcceptPhase::Status(rd) => match Socket::finish_status(rd, ev) {
                Ok(Status::Listen) => Poll::Pending(Accept { sock, phase: AcceptPhase::Napping }),
                Ok(Status::Established) => {
                    let this: TcpSocket<Listening> = TcpSocket::at(sock);
                    proof {
                        lemma_place::<Listening>(sock, this);
                    }
                    Poll::Ready(Ok(this.new_state()))
                },
                Ok(other) => Poll::Pending(self.fail(W5100Error::BadSocketState(other.to_u8()))),
                Err(W5100Error::UnknownSocketStatus(raw)) => Poll::Pending(
                    self.fail(W5100Error::UnknownSocketStatus(raw)),
                ),
                Err(e) => Poll::Ready(Err(e)),
            },
            AcceptPhase::Napping => Poll::Pending(
                Accept { sock, phase: AcceptPhase::Status(sock.status()) },
            ),
            AcceptPhase::Failing(f) => match f.resume(ev) {
                Poll::Pending(g) => Poll::Pending(Accept { sock, phase: AcceptPhase::Failing(g) }),
                Poll::Ready(e) => Poll::Ready(Err(e)),
            },
        }
    }
}

/// Where a close stands.
#[derive(Clone, Copy, Debug, PartialEq, Eq, Structural)]
pub enum ClosePhase {
    /// The `Disconnect` command is being written.
    Disconnect(WriteRaw),
    /// The `Close` command is being written.
    Close(WriteRaw),
}

/// The close of a connected socket, in progress.
#[derive(Clone, Copy, Debug, PartialEq, Eq, Structural)]
pub struct Close {
    pub sock: Socket,
    pub phase: ClosePhase,
}

impl Close {
    /// The close before its first action.
    pub open spec fn start(sock: Socket) -> Close {
        Close {
            sock,
            phase: ClosePhase::Disconnect(
                WriteRaw::start(
                    SN_CR + sock.register_offset,
                    Payload::One(Command::Disconnect.code()),
                ),
            ),
        }
    }

    /// What holds of the close at every step.
    pub open spec fn wf(self) -> bool {
        &&& self.sock.wf()
        &&& match self.phase {
            ClosePhase::Disconnect(wr) => wr == WriteRaw::start(
                SN_CR + self.sock.register_offset,
                Payload::One(Command::Disconnect.code()),
            ),
            ClosePhase::Close(wr) => wr == WriteRaw::start(
                SN_CR + self.sock.register_offset,
                Payload::One(Command::Close.code()),
            ),
        }
    }

    /// What the close is waiting for.
    pub open spec fn pending(self) -> Action {
        match self.phase {
            ClosePhase::Disconnect(wr) => wr.pending(),
            ClosePhase::Close(wr) => wr.pending(),
        }
    }

    /// The close after `ev`: `Disconnect` is issued, and then `Close`
    /// whatever the peer does, so that the chip's socket can be used
    /// again.
    pub open spec fn step(self, ev: Event) -> Poll<Close, Result<(), W5100Error>> {
        match self.phase {
            ClosePhase::Disconnect(wr) => match wr.step(ev) {
                Poll::Pending(w) => Poll::Pending(Close { phase: ClosePhase::Disconnect(w), ..self }),
                Poll::Ready(Err(e)) => Poll::Ready(Err(e)),
                Poll::Ready(Ok(())) => Poll::Pending(
                    Close {
                        phase: ClosePhase::Close(
                            WriteRaw::start(
                                SN_CR + self.sock.register_offset,
                                Payload::One(Command::Close.code()),
                            ),
                        ),
                        ..self
                    },
                ),
            },
            ClosePhase::Close(wr) => match wr.step(ev) {
                Poll::Pending(w) => Poll::Pending(Close { phase: ClosePhase::Close(w), ..self }),
                Poll::Ready(r) => Poll::Ready(r),
            },
        }
    }

    /// What the close is waiting for: the action to perform next.
    pub fn action(&self) -> (a: Action)
        ensures
            a == self.pending(),
    {
        match self.phase {
            ClosePhase::Disconnect(wr) => wr.action(),
            ClosePhase::Close(wr) => wr.action(),
        }
    }

    /// Takes what came of the awaited action and goes on.
    pub fn resume(self, ev: Event) -> (r: Poll<Close, Result<(), W5100Error>>)
        requires
            self.wf(),
            self.pending().answered_by(ev),
        ensures
            r == self.step(ev),
            r matches Poll::Pending(m) ==> m.wf() && m.sock == self.sock,
    {
        let sock = self.sock;
        match self.phase {
            ClosePhase::Disconnect(wr) => match wr.resume(ev) {
                Poll::Pending(w) => Poll::Pending(Close { sock, phase: ClosePhase::Disconnect(w) }),
                Poll::Ready(Err(e)) => Poll::Ready(Err(e)),
                Poll::Ready(Ok(())) => Poll::Pending(
                    Close { sock, phase: ClosePhase::Close(sock.send_command(Command::Close)) },
                ),
            },
            ClosePhase::Close(wr) => match wr.resume(ev) {
                Poll::Pending(w) => Poll::Pending(Close { sock, phase: ClosePhase::Close(w) }),
                Poll::Ready(r) => Poll::Ready(r),
            },
        }
    }
}

/// Where a write stands.
#[derive(Clone, Copy, Debug, PartialEq, Eq, Structural)]
pub enum WritePhase {
    /// The status is being read.
    Status(ReadU8),
    /// The bytes are being moved.
    Sending(Transmit),
    /// A fault was found; the socket is being closed.
    Failing(Fail),
}

/// A write in progress.
#[derive(Clone, Copy, Debug, PartialEq, Eq, Structural)]
pub struct Write {
    pub sock: Socket,
    pub len: usize,
    pub phase: WritePhase,
}

impl Write {
    /// The write before its first action.
    pub open spec fn start(sock: Socket, len: usize) -> Write {
        Write { sock, len, phase: WritePhase::Status(ReadU8::start(SN_SR + sock.register_offset)) }
    }

    /// The write as it begins to close the socket after the fault `error`.
    pub open spec fn failing(self, error: W5100Error) -> Write {
        Write { phase: WritePhase::Failing(Fail::start(self.sock, error)), ..self }
    }

    /// What holds of the write at every step.
    pub open spec fn wf(self) -> bool {
        &&& self.sock.wf()
        &&& self.len <= LEASE_LIMIT
        &&& match self.phase {
            WritePhase::Status(rd) => rd == ReadU8::start(SN_SR + self.sock.register_offset),
            WritePhase::Sending(tx) => tx.wf() && tx.sock == self.sock && tx.len == self.len,
            WritePhase::Failing(f) => f.wf() && f.closes(self.sock),
        }
    }

    /// What the write is waiting for.
    pub open spec fn pending(self) -> Action {
        match self.phase {
            WritePhase::Status(rd) => rd.pending(),
            WritePhase::Sending(tx) => tx.pending(),
            WritePhase::Failing(f) => f.pending(),
        }
    }

    /// The write after `ev`: the status is read first. If it is
    /// `Established` the bytes are sent, and the write ends with their
    /// number. If the peer has closed, or on any other status, or on a
    /// byte that is no status, or if the transport fails while bytes
    /// are sent, the socket is closed before the failure is reported.
    /// If the transport fails while the status is read, the write ends
    /// at once. If the client's buffer is gone the
    /// write ends at once and leaves the socket to whoever cleans up
    /// after the client.
    pub open spec fn step(self, ev: Event) -> Poll<Write, Result<usize, RequestError>> {
        match self.phase {
            WritePhase::Status(rd) => match Socket::status_after(rd, ev) {
                Ok(Status::Established) => Poll::Pending(
                    Write { phase: WritePhase::Sending(Transmit::start(self.sock, self.len)), ..self },
                ),
                Ok(Status::CloseWait) => Poll::Pending(self.failing(W5100Error::PeerClosed)),
                Ok(other) => Poll::Pending(
                    self.failing(W5100Error::BadSocketState(other.code())),
                ),
                Err(W5100Error::UnknownSocketStatus(raw)) => Poll::Pending(
                    self.failing(W5100Error::UnknownSocketStatus(raw)),
                ),
                Err(e) => Poll::Ready(Err(RequestError::Runtime(e))),
            },
            WritePhase::Sending(tx) => match tx.step(ev) {
                Poll::Pending(t) => Poll::Pending(Write { phase: WritePhase::Sending(t), ..self }),
                Poll::Ready(Ok(n)) => Poll::Ready(Ok(n)),
                Poll::Ready(Err(RequestError::Fail(c))) => Poll::Ready(Err(RequestError::Fail(c))),
                Poll::Ready(Err(RequestError::Runtime(e))) => Poll::Pending(self.failing(e)),
            },
            WritePhase::Failing(f) => match f.step(ev) {
                Poll::Pending(g) => Poll::Pending(Write { phase: WritePhase::Failing(g), ..self }),
                Poll::Ready(e) => Poll::Ready(Err(RequestError::Runtime(e))),
            },
        }
    }

    /// What the write is waiting for: the action to perform next.
    pub fn action(&self) -> (a: Action)
        ensures
            a == self.pending(),
    {
        match self.phase {
            WritePhase::Status(rd) => rd.action(),
            WritePhase::Sending(tx) => tx.action(),
            WritePhase::Failing(f) => f.action(),
        }
    }

    /// Tests whether the socket is being closed after a fault.
    pub fn is_failing(&self) -> (b: bool)
        ensures
            b == (self.phase is Failing),
    {
        match self.phase {
            WritePhase::Failing(_) => true,
            _ => false,
        }
    }

    /// Enters the forced close after the fault `error`.
    fn fail(self, error: W5100Error) -> (m: Write)
        requires
            self.wf(),
        ensures
            m == self.failing(error),
            m.wf(),
    {
        let this: TcpSocket<Established> = TcpSocket::at(self.sock);
        proof {
            lemma_place::<Established>(self.sock, this);
        }
        Write { sock: self.sock, len: self.len, phase: WritePhase::Failing(this.fail(error)) }
    }

    /// Takes what came of the awaited action and goes on.
    pub fn resume(self, ev: Event) -> (r: Poll<Write, Result<usize, RequestError>>)
        requires
            self.wf(),
            self.pending().answered_by(ev),
        ensures
            r == self.step(ev),
            r matches Poll::Pending(m) ==> m.wf(),
    {
        let sock = self.sock;
        let len = self.len;
        match self.phase {
            WritePhase::Status(rd) => match Socket::finish_status(rd, ev) {
                Ok(Status::Established) => Poll::Pending(
                    Write { sock, len, phase: WritePhase::Sending(sock.send(len)) },
                ),
                Ok(Status::CloseWait) => Poll::Pending(self.fail(W5100Error::PeerClosed)),
                Ok(other) => Poll::Pending(self.fail(W5100Error::BadSocketState(other.to_u8()))),
                Err(W5100Error::UnknownSocketStatus(raw)) => Poll::Pending(
                    self.fail(W5100Error::UnknownSocketStatus(raw)),
                ),
                Err(e) => Poll::Ready(Err(RequestError::Runtime(e))),
            },
            WritePhase::Sending(tx) => match tx.resume(ev) {
                Poll::Pending(t) => Poll::Pending(Write { sock, len, phase: WritePhase::Sending(t) }),
                Poll::Ready(Ok(n)) => Poll::Ready(Ok(n)),
                Poll::Ready(Err(RequestError::Fail(c))) => Poll::Ready(Err(RequestError::Fail(c))),
                Poll::Ready(Err(RequestError::Runtime(e))) => Poll::Pending(self.fail(e)),
            },
            WritePhase::Failing(f) => match f.resume(ev) {
                Poll::Pending(g) => Poll::Pending(Write { sock, len, phase: WritePhase::Failing(g) }),
                Poll::Ready(e) => Poll::Ready(Err(RequestError::Runtime(e))),
            },
        }
    }
}

/// Where a read stands.
#[derive(Clone, Copy, Debug, PartialEq, Eq, Structural)]
pub enum ReadPhase {
    /// The status is being read.
    Status(ReadU8),
    /// The bytes are being moved.
    Receiving(Receive),
    /// Nothing was there; sleeping before the next look.
    Napping,
    /// A fault was found; the socket is being closed.
    Failing(Fail),
}

/// A read in progress.
#[derive(Clone, Copy, Debug, PartialEq, Eq, Structural)]
pub struct Read {
    pub sock: Socket,
    pub len: usize,
    pub phase: ReadPhase,
}

impl Read {
    /// The read before its first action.
    pub open spec fn start(sock: Socket, len: usize) -> Read {
        Read { sock, len, phase: ReadPhase::Status(ReadU8::start(SN_SR + sock.register_offset)) }
    }

    /// The read as it begins to close the socket after the fault `error`.
    pub open spec fn failing(self, error: W5100Error) -> Read {
        Read { phase: ReadPhase::Failing(Fail::start(self.sock, error)), ..self }
    }

    /// What holds of the read at every step.
    pub open spec fn wf(self) -> bool {
        &&& self.sock.wf()
        &&& self.len <= LEASE_LIMIT
        &&& match self.phase {
            ReadPhase::Status(rd) => rd == ReadU8::start(SN_SR + self.sock.register_offset),
            ReadPhase::Receiving(rx) => rx.wf() && rx.sock == self.sock && rx.len == self.len,
            ReadPhase::Napping => true,
            ReadPhase::Failing(f) => f.wf() && f.closes(self.sock),
        }
    }

    /// What the read is waiting for.
    pub open spec fn pending(self) -> Action {
        match self.phase {
            ReadPhase::Status(rd) => rd.pending(),
            ReadPhase::Receiving(rx) => rx.pending(),
            ReadPhase::Napping => Action::Sleep(READ_POLL_MS),
            ReadPhase::Failing(f) => f.pending(),
        }
    }

    /// The read after `ev`: before each receive the status is read. If
    /// the peer has closed, the read ends with 0 and without error. If
    /// the status is `Established`, bytes are received; the read ends
    /// with their number if there are any, and sleeps and begins again
    /// if there are none. On any other status, or on a byte that is no
    /// status, or if the transport fails while bytes are received, the
    /// socket is closed before the failure is reported. If the transport
    /// fails while the status is read, the read ends at once. If the client's buffer is gone the read
    /// ends at once and leaves the socket to whoever cleans up after the
    /// client.
    pub open spec fn step(self, ev: Event) -> Poll<Read, Result<usize, RequestError>> {
        match self.phase {
            ReadPhase::Status(rd) => match Socket::status_after(rd, ev) {
                Ok(Status::Established) => Poll::Pending(
                    Read { phase: ReadPhase::Receiving(Receive::start(self.sock, self.len)), ..self },
                ),
                Ok(Status::CloseWait) => Poll::Ready(Ok(0)),
                Ok(other) => Poll::Pending(
                    self.failing(W5100Error::BadSocketState(other.code())),
                ),
                Err(W5100Error::UnknownSocketStatus(raw)) => Poll::Pending(
                    self.failing(W5100Error::UnknownSocketStatus(raw)),
                ),
                Err(e) => Poll::Ready(Err(RequestError::Runtime(e))),
            },
            ReadPhase::Receiving(rx) => match rx.step(ev) {
                Poll::Pending(r) => Poll::Pending(Read { phase: ReadPhase::Receiving(r), ..self }),
                Poll::Ready(Ok(n)) => if n == 0 {
                    Poll::Pending(Read { phase: ReadPhase::Napping, ..self })
                } else {
                    Poll::Ready(Ok(n))
                },
                Poll::Ready(Err(RequestError::Fail(c))) => Poll::Ready(Err(RequestError::Fail(c))),
                Poll::Ready(Err(RequestError::Runtime(e))) => Poll::Pending(self.failing(e)),
            },
            ReadPhase::Napping => Poll::Pending(Read::start(self.sock, self.len)),
            ReadPhase::Failing(f) => match f.step(ev) {
                Poll::Pending(g) => Poll::Pending(Read { phase: ReadPhase::Failing(g), ..self }),
                Poll::Ready(e) => Poll::Ready(Err(RequestError::Runtime(e))),
            },
        }
    }

    /// What the read is waiting for: the action to perform next.
    pub fn action(&self) -> (a: Action)
        ensures
            a == self.pending(),
    {
        match self.phase {
            ReadPhase::Status(rd) => rd.action(),
            ReadPhase::Receiving(rx) => rx.action(),
            ReadPhase::Napping => Action::Sleep(READ_POLL_MS),
            ReadPhase::Failing(f) => f.action(),
        }
    }

    /// Tests whether the socket is being closed after a fault.
    pub fn is_failing(&self) -> (b: bool)
        ensures
            b == (self.phase is Failing),
    {
        match self.phase {
            ReadPhase::Failing(_) => true,
            _ => false,
        }
    }

    /// Enters the forced close after the fault `error`.
    fn fail(self, error: W5100Error) -> (m: Read)
        requires
            self.wf(),
        ensures
            m == self.failing(error),
            m.wf(),
    {
        let this: TcpSocket<Established> = TcpSocket::at(self.sock);
        proof {
            lemma_place::<Established>(self.sock, this);
        }
        Read { sock: self.sock, len: self.len, phase: ReadPhase::Failing(this.fail(error)) }
    }

    /// Takes what came of the awaited action and goes on.
    pub fn resume(self, ev: Event) -> (r: Poll<Read, Result<usize, RequestError>>)
        requires
            self.wf(),
            self.pending().answered_by(ev),
        ensures
            r == self.step(ev),
            r matches Poll::Pending(m) ==> m.wf(),
    {
        let sock = self.sock;
        let len = self.len;
        match self.phase {
            ReadPhase::Status(rd) => match Socket::finish_status(rd, ev) {
                Ok(Status::Established) => Poll::Pending(
                    Read { sock, len, phase: ReadPhase::Receiving(sock.recv(len)) },
                ),
                Ok(Status::CloseWait) => Poll::Ready(Ok(0)),
                Ok(other) => Poll::Pending(self.fail(W5100Error::BadSocketState(other.to_u8()))),
                Err(W5100Error::UnknownSocketStatus(raw)) => Poll::Pending(
                    self.fail(W5100Error::UnknownSocketStatus(raw)),
                ),
                Err(e) => Poll::Ready(Err(RequestError::Runtime(e))),
            },
            ReadPhase::Receiving(rx) => match rx.resume(ev) {
                Poll::Pending(r) => Poll::Pending(Read { sock, len, phase: ReadPhase::Receiving(r) }),
                Poll::Ready(Ok(n)) => if n == 0 {
                    Poll::Pending(Read { sock, len, phase: ReadPhase::Napping })
                } else {
                    Poll::Ready(Ok(n))
                },
                Poll::Ready(Err(RequestError::Fail(c))) => Poll::Ready(Err(RequestError::Fail(c))),
                Poll::Ready(Err(RequestError::Runtime(e))) => Poll::Pending(self.fail(e)),
            },
            ReadPhase::Napping => Poll::Pending(
                Read { sock, len, phase: ReadPhase::Status(sock.status()) },
            ),
            ReadPhase::Failing(f) => match f.resume(ev) {
                Poll::Pending(g) => Poll::Pending(Read { sock, len, phase: ReadPhase::Failing(g) }),
                Poll::Ready(e) => Poll::Ready(Err(RequestError::Runtime(e))),
            },
        }
    }
}

impl TcpSocket<Init> {
    /// Begins to open the socket `socket_index` of the chip for TCP on
    /// the port `source_port`. The partition must serve that socket.
    pub fn open(device: &W5100, socket_index: SocketIndex, source_port: u16) -> (m: Open)
        requires
            socket_index.number() < device.config().sockets(),
        ensures
            m == Open::start(Socket::at(device.config(), socket_index), source_port),
            m.wf(),
    {
        let socket = Socket::new(device, socket_index);
        Open {
            sock: socket,
            port: source_port,
            phase: OpenPhase::Mode(socket.set_mode(Mode::proto_tcp())),
        }
    }

    /// Begins to listen. The socket is given up: the listen yields it
    /// in its new state, or an error.
    pub fn listen(self) -> (m: Listen)
        ensures
            m == Listen::start(self.place()),
            m.wf(),
    {
        let socket = self.socket();
        Listen { sock: socket, phase: ListenPhase::Command(socket.send_command(Command::Listen)) }
    }
}

impl TcpSocket<Listening> {
    /// Begins to wait for a peer. The socket is given up: the accept
    /// yields it in its new state, or an error.
    pub fn accept(self) -> (m: Accept)
        ensures
            m == Accept::start(self.place()),
            m.wf(),
    {
        let socket = self.socket();
        Accept { sock: socket, phase: AcceptPhase::Status(socket.status()) }
    }
}

impl TcpSocket<Established> {
    /// Begins to close the connection. The socket is given up.
    pub fn close(self) -> (m: Close)
        ensures
            m == Close::start(self.place()),
            m.wf(),
    {
        let socket = self.socket();
        Close {
            sock: socket,
            phase: ClosePhase::Disconnect(socket.send_command(Command::Disconnect)),
        }
    }

    /// Begins to write up to `len` bytes from the client's buffer. The
    /// write ends with the number of bytes written.
    pub fn write(&self, len: usize) -> (m: Write)
        requires
            len <= LEASE_LIMIT,
        ensures
            m == Write::start(self.place(), len),
            m.wf(),
    {
        let socket = self.socket();
        Write { sock: socket, len, phase: WritePhase::Status(socket.status()) }
    }

    /// Begins to read up to `len` bytes into the client's buffer. The
    /// read ends with the number of bytes read; 0 says that the peer has
    /// closed the connection.
    pub fn read(&self, len: usize) -> (m: Read)
        requires
            len <= LEASE_LIMIT,
        ensures
            m == Read::start(self.place(), len),
            m.wf(),
    {
        let socket = self.socket();
        Read { sock: socket, len, phase: ReadPhase::Status(socket.status()) }
    }
}

/// The stream that writes `command` to the command register of the
/// socket at `sock`.
pub open spec fn command_stream(sock: Socket, command: Command) -> Action {
    Action::Exchange(stream(OP_WRITE, SN_CR + sock.register_offset, command.code()))
}

/// The stream that reads the status register of the socket at `sock`.
pub open spec fn status_stream(sock: Socket) -> Action {
    Action::Exchange(stream(OP_READ, SN_SR + sock.register_offset, 0))
}

/// Whether an error reports a fault of the protocol: the chip's socket
/// was found in a state in which the operation cannot go on, or its
/// status register held a byte that is no status.
pub open spec fn is_protocol_fault(e: W5100Error) -> bool {
    e is OpenFailed || e is ListenFailed || e is PeerClosed || e is BadSocketState || e
        is UnknownSocketStatus
}

/// The fault that a status byte is for an operation that can go on
/// only at the status `wanted`, and that reports every other status as
/// `unwanted`: none if the byte stands for `wanted`, `unwanted` if it
/// stands for another status, and the byte itself if it stands for none.
pub open spec fn fault_at(raw: u8, wanted: Status, unwanted: W5100Error) -> Option<W5100Error> {
    match Status::decode(raw) {
        None => Some(W5100Error::UnknownSocketStatus(raw)),
        Some(status) => if status == wanted {
            None
        } else {
            Some(unwanted)
        },
    }
}

/// A forced close waits for the exchange of the `Close` command, and
/// then yields the fault it was begun with, or the transport's failure.
pub proof fn lemma_fail_step(f: Fail, sock: Socket, ev: Event)
    requires
        sock.wf(),
        f.closes(sock),
        f.pending().answered_by(ev),
    ensures
        f.wf(),
        f.pending() == command_stream(sock, Command::Close),
        ev is Exchanged ==> f.step(ev) == Poll::<Fail, W5100Error>::Ready(f.error),
        ev matches Event::TransportFailed(e) ==> f.step(ev) == Poll::<Fail, W5100Error>::Ready(
            W5100Error::SpiError(e),
        ),
{
}

/// An open in progress stays well formed and on its socket. It yields
/// the socket if and only if the status was read as `Init`. When the
/// status register holds anything else, the open goes on to close the
/// socket, and it reports a fault of the protocol only after the
/// exchange of the `Close` command.
pub proof fn lemma_open_step(m: Open, ev: Event)
    requires
        m.wf(),
        m.pending().answered_by(ev),
    ensures
        m.step(ev) matches Poll::Pending(n) ==> n.wf() && n.sock == m.sock && n.port == m.port,
        m.step(ev) matches Poll::Ready(Ok(t)) ==> t == TcpSocket::<Init>::on(m.sock),
        m.step(ev) is Ready && m.step(ev)->Ready_0 is Ok <==> m.phase is Status && ev
            == Event::Exchanged(Status::Init.code()),
        (m.step(ev) matches Poll::Ready(Err(e)) && is_protocol_fault(e)) ==> m.phase is Failing
            && m.pending() == command_stream(m.sock, Command::Close),
        m.phase is Failing ==> m.pending() == command_stream(m.sock, Command::Close) && (m.step(ev)
            matches Poll::Ready(r) && r is Err),
        m.phase is Status && ev is Exchanged && fault_at(
            ev->Exchanged_0,
            Status::Init,
            W5100Error::OpenFailed,
        ) is Some ==> m.step(ev) == Poll::<Open, Result<TcpSocket<Init>, W5100Error>>::Pending(
            m.failing(fault_at(ev->Exchanged_0, Status::Init, W5100Error::OpenFailed)->0),
        ) && m.failing(
            fault_at(ev->Exchanged_0, Status::Init, W5100Error::OpenFailed)->0,
        ).pending() == command_stream(m.sock, Command::Close),
{
    match m.phase {
        OpenPhase::Mode(wr) => lemma_write_raw_step(wr, ev),
        OpenPhase::Port(wr) => lemma_write_raw_step(wr, ev),
        OpenPhase::Command(wr) => lemma_write_raw_step(wr, ev),
        OpenPhase::Status(rd) => {},
        OpenPhase::Failing(f) => lemma_fail_step(f, m.sock, ev),
    }
}

/// A listen in progress stays well formed and on its socket. It yields
/// the socket if and only if the status was read as `Listen`. When the
/// status register holds anything else, the listen goes on to close the
/// socket, and it reports a fault of the protocol only after the
/// exchange of the `Close` command.
pub proof fn lemma_listen_step(m: Listen, ev: Event)
    requires
        m.wf(),
        m.pending().answered_by(ev),
    ensures
        m.step(ev) matches Poll::Pending(n) ==> n.wf() && n.sock == m.sock,
        m.step(ev) matches Poll::Ready(Ok(t)) ==> t == TcpSocket::<Listening>::on(m.sock),
        m.step(ev) is Ready && m.step(ev)->Ready_0 is Ok <==> m.phase is Status && ev
            == Event::Exchanged(Status::Listen.code()),
        (m.step(ev) matches Poll::Ready(Err(e)) && is_protocol_fault(e)) ==> m.phase is Failing
            && m.pending() == command_stream(m.sock, Command::Close),
        m.phase is Failing ==> m.pending() == command_stream(m.sock, Command::Close) && (m.step(ev)
            matches Poll::Ready(r) && r is Err),
        m.phase is Status && ev is Exchanged && fault_at(
            ev->Exchanged_0,
            Status::Listen,
            W5100Error::ListenFailed,
        ) is Some ==> m.step(ev) == Poll::<
            Listen,
            Result<TcpSocket<Listening>, W5100Error>,
        >::Pending(
            m.failing(fault_at(ev->Exchanged_0, Status::Listen, W5100Error::ListenFailed)->0),
        ),
{
    match m.phase {
        ListenPhase::Command(wr) => lemma_write_raw_step(wr, ev),
        ListenPhase::Status(rd) => {},
        ListenPhase::Failing(f) => lemma_fail_step(f, m.sock, ev),
    }
}

/// An accept in progress stays well formed and on its socket. It
/// yields the socket if and only if the status was read as
/// `Established`; it sleeps if and only if the status was read as
/// `Listen`; on anything else it goes on to close the socket, and it
/// reports a fault of the protocol only after the exchange of the
/// `Close` command.
pub proof fn lemma_accept_step(m: Accept, ev: Event)
    requires
        m.wf(),
        m.pending().answered_by(ev),
    ensures
        m.step(ev) matches Poll::Pending(n) ==> n.wf() && n.sock == m.sock,
        m.step(ev) matches Poll::Ready(Ok(t)) ==> t == TcpSocket::<Established>::on(m.sock),
        m.step(ev) is Ready && m.step(ev)->Ready_0 is Ok <==> m.phase is Status && ev
            == Event::Exchanged(Status::Established.code()),
        (m.step(ev) matches Poll::Pending(n) && n.phase is Napping) <==> m.phase is Status && ev
            == Event::Exchanged(Status::Listen.code()),
        (m.step(ev) matches Poll::Ready(Err(e)) && is_protocol_fault(e)) ==> m.phase is Failing
            && m.pending() == command_stream(m.sock, Command::Close),
        m.phase is Failing ==> m.pending() == command_stream(m.sock, Command::Close) && (m.step(ev)
            matches Poll::Ready(r) && r is Err),
        m.phase is Status && ev is Exchanged && Status::decode(ev->Exchanged_0) is None ==> m.step(
            ev,
        ) == Poll::<Accept, Result<TcpSocket<Established>, W5100Error>>::Pending(
            m.failing(W5100Error::UnknownSocketStatus(ev->Exchanged_0)),
        ),
        m.phase is Napping ==> m.step(ev) == Poll::<
            Accept,
            Result<TcpSocket<Established>, W5100Error>,
        >::Pending(Accept::start(m.sock)),
{
    match m.phase {
        AcceptPhase::Status(rd) => {},
        AcceptPhase::Napping => {},
        AcceptPhase::Failing(f) => lemma_fail_step(f, m.sock, ev),
    }
}

/// A close issues `Disconnect` and then `Close`, and is done; only a
/// failure of the transport ends it otherwise.
pub proof fn lemma_close_step(sock: Socket, first: u8, second: u8)
    requires
        sock.wf(),
    ensures
        Close::start(sock).wf(),
        Close::start(sock).pending() == command_stream(sock, Command::Disconnect),
        Close::start(sock).step(Event::Exchanged(first)) matches Poll::Pending(m) && m.wf()
            && m.pending() == command_stream(sock, Command::Close) && m.step(
            Event::Exchanged(second),
        ) == Poll::<Close, Result<(), W5100Error>>::Ready(Ok(())),
{
}

/// A close in progress stays well formed.
pub proof fn lemma_close_wf(m: Close, ev: Event)
    requires
        m.wf(),
        m.pending().answered_by(ev),
    ensures
        m.step(ev) matches Poll::Pending(n) ==> n.wf() && n.sock == m.sock,
{
    match m.phase {
        ClosePhase::Disconnect(wr) => lemma_write_raw_step(wr, ev),
        ClosePhase::Close(wr) => lemma_write_raw_step(wr, ev),
    }
}

/// A write in progress stays well formed, on its socket and with its
/// length. It reports a fault of the protocol (the peer has closed,
/// a bad state, a byte that is no status) only after the exchange of
/// the `Close` command; and once that command is awaited the write can
/// only end, and in failure.
pub proof fn lemma_write_step(m: Write, ev: Event)
    requires
        m.wf(),
        m.pending().answered_by(ev),
    ensures
        m.step(ev) matches Poll::Pending(n) ==> n.wf() && n.sock == m.sock && n.len == m.len,
        (m.step(ev) matches Poll::Ready(Err(RequestError::Runtime(e))) && is_protocol_fault(e))
            ==> m.phase is Failing,
        m.phase is Status && ev is Exchanged && Status::decode(ev->Exchanged_0) is None ==> m.step(
            ev,
        ) == Poll::<Write, Result<usize, RequestError>>::Pending(
            m.failing(W5100Error::UnknownSocketStatus(ev->Exchanged_0)),
        ),
        m.phase is Failing ==> m.pending() == command_stream(m.sock, Command::Close) && (m.step(ev)
            matches Poll::Ready(r) && r is Err),
        m.phase is Status ==> m.pending() == status_stream(m.sock),
        m.phase is Status && ev == Event::Exchanged(Status::CloseWait.code()) ==> m.step(ev)
            == Poll::<Write, Result<usize, RequestError>>::Pending(
            m.failing(W5100Error::PeerClosed),
        ),
        m.step(ev) matches Poll::Ready(Ok(k)) ==> k <= m.len,
{
    match m.phase {
        WritePhase::Status(rd) => {},
        WritePhase::Sending(tx) => {
            lemma_transmit_step(tx, ev);
        },
        WritePhase::Failing(f) => lemma_fail_step(f, m.sock, ev),
    }
}

/// A read in progress stays well formed, on its socket and with its
/// length. When the status is read as the peer's close, the read ends
/// with 0 and without error, and nothing more is exchanged. It reports
/// a fault of the protocol (a bad state, a byte that is no status) only
/// after the exchange of the `Close` command; and once that command is
/// awaited the read can only end, and in failure. It
/// ends in success with a number other than 0 only when that many bytes
/// were received.
pub proof fn lemma_read_step(m: Read, ev: Event)
    requires
        m.wf(),
        m.pending().answered_by(ev),
    ensures
        m.step(ev) matches Poll::Pending(n) ==> n.wf() && n.sock == m.sock && n.len == m.len,
        (m.step(ev) matches Poll::Ready(Err(RequestError::Runtime(e))) && is_protocol_fault(e))
            ==> m.phase is Failing,
        m.phase is Status && ev is Exchanged && Status::decode(ev->Exchanged_0) is None ==> m.step(
            ev,
        ) == Poll::<Read, Result<usize, RequestError>>::Pending(
            m.failing(W5100Error::UnknownSocketStatus(ev->Exchanged_0)),
        ),
        m.phase is Failing ==> m.pending() == command_stream(m.sock, Command::Close) && (m.step(ev)
            matches Poll::Ready(r) && r is Err),
        m.phase is Status ==> m.pending() == status_stream(m.sock),
        m.phase is Status && ev == Event::Exchanged(Status::CloseWait.code()) ==> m.step(ev)
            == Poll::<Read, Result<usize, RequestError>>::Ready(Ok(0)),
        m.step(ev) matches Poll::Ready(Ok(k)) ==> k <= m.len && (k == 0 <==> m.phase is Status),
{
    match m.phase {
        ReadPhase::Status(rd) => {},
        ReadPhase::Receiving(rx) => {
            lemma_receive_step(rx, ev);
        },
        ReadPhase::Napping => {},
        ReadPhase::Failing(f) => lemma_fail_step(f, m.sock, ev),
    }
}

impl Open {
    /// The open one step on, where it goes on.
    pub open spec fn after(self, ev: Event) -> Open {
        match self.step(ev) {
            Poll::Pending(next) => next,
            Poll::Ready(_) => self,
        }
    }
}

/// What an open does on a sound bus: it writes the TCP mode, the two
/// bytes of the source port and the `Open` command, each with one
/// exchange and whatever the chip answers to them, then reads the
/// status, and yields the socket in state `Init` if that reads `Init`.
/// If it reads as any other status, the open writes the `Close` command
/// and then fails.
pub proof fn lemma_open_sequence(
    sock: Socket,
    port: u16,
    a: u8,
    b: u8,
    c: u8,
    d: u8,
    other: Status,
    e: u8,
)
    requires
        sock.wf(),
        other != Status::Init,
    ensures
        ({
            let m0 = Open::start(sock, port);
            let m1 = m0.after(Event::Exchanged(a));
            let m2 = m1.after(Event::Exchanged(b));
            let m3 = m2.after(Event::Exchanged(c));
            let m4 = m3.after(Event::Exchanged(d));
            &&& m0.wf()
            &&& m0.pending() == Action::Exchange(
                stream(OP_WRITE, SN_MR + sock.register_offset, MODE_PROTO_TCP),
            )
            &&& m1.pending() == Action::Exchange(
                stream(OP_WRITE, SN_PORT + sock.register_offset, (port / 256) as u8),
            )
            &&& m2.pending() == Action::Exchange(
                stream(OP_WRITE, SN_PORT + sock.register_offset + 1, (port % 256) as u8),
            )
            &&& m3.pending() == command_stream(sock, Command::Open)
            &&& m4.pending() == status_stream(sock)
            &&& m4.step(Event::Exchanged(Status::Init.code())) == Poll::<
                Open,
                Result<TcpSocket<Init>, W5100Error>,
            >::Ready(Ok(TcpSocket::on(sock)))
            &&& m4.step(Event::Exchanged(other.code())) == Poll::<
                Open,
                Result<TcpSocket<Init>, W5100Error>,
            >::Pending(m4.failing(W5100Error::OpenFailed))
            &&& m4.failing(W5100Error::OpenFailed).pending() == command_stream(sock, Command::Close)
            &&& m4.failing(W5100Error::OpenFailed).step(Event::Exchanged(e)) == Poll::<
                Open,
                Result<TcpSocket<Init>, W5100Error>,
            >::Ready(Err(W5100Error::OpenFailed))
        }),
{
}

/// What a listen does on a sound bus: it writes the `Listen` command and
/// reads the status. If that reads `Listen` it yields the socket in
/// state `Listening`. If it reads as any other status, the listen writes
/// the `Close` command and then fails.
pub proof fn lemma_listen_sequence(sock: Socket, a: u8, other: Status, b: u8)
    requires
        sock.wf(),
        other != Status::Listen,
    ensures
        ({
            let m0 = Listen::start(sock);
            let m1 = Listen {
                phase: ListenPhase::Status(ReadU8::start(SN_SR + sock.register_offset)),
                ..m0
            };
            let m2 = Listen {
                phase: ListenPhase::Failing(Fail::start(sock, W5100Error::ListenFailed)),
                ..m0
            };
            &&& m0.wf()
            &&& m0.pending() == command_stream(sock, Command::Listen)
            &&& m0.step(Event::Exchanged(a)) == Poll::<
                Listen,
                Result<TcpSocket<Listening>, W5100Error>,
            >::Pending(m1)
            &&& m1.pending() == status_stream(sock)
            &&& m1.step(Event::Exchanged(Status::Listen.code())) == Poll::<
                Listen,
                Result<TcpSocket<Listening>, W5100Error>,
            >::Ready(Ok(TcpSocket::on(sock)))
            &&& m1.step(Event::Exchanged(other.code())) == Poll::<
                Listen,
                Result<TcpSocket<Listening>, W5100Error>,
            >::Pending(m2)
            &&& m2.pending() == command_stream(sock, Command::Close)
            &&& m2.step(Event::Exchanged(b)) == Poll::<
                Listen,
                Result<TcpSocket<Listening>, W5100Error>,
            >::Ready(Err(W5100Error::ListenFailed))
        }),
{
}

} // verus!
