//! The service: one TCP session at a time, on socket 0, for one client.
//!
//! A request either is refused at once or begins an operation on the
//! chip. While an operation is in progress the service names the next
//! [`Action`] to perform and is resumed with its [`Event`], until it has
//! a reply for the client. No request is taken before that.

use vstd::prelude::*;
use crate::bus::{Action, Event, Poll};
use crate::error::{RequestError, W5100Error};
use crate::tcp::{
    command_stream, is_protocol_fault, lemma_accept_step, lemma_close_step, lemma_close_wf, lemma_listen_step,
    lemma_open_step, lemma_place, lemma_read_step, lemma_write_step, status_stream, Accept, Close,
    Established, Init, Listen, Listening, Open, Read, TcpSocket, Write,
};
use crate::w5100::socket::{Command, Socket, SocketIndex, Status, LEASE_LIMIT, SN_CR};
use crate::w5100::{lemma_write_raw_step, Payload, WriteRaw, W5100};

verus! {

/// Who a client is.
#[derive(Clone, Copy, Debug, PartialEq, Eq, Structural)]
pub struct TaskId(pub u16);

/// The socket of the session, in the state that the session is in.
#[derive(Debug, PartialEq, Eq)]
pub enum SocketState {
    /// Opened, not yet connected.
    Open(TcpSocket<Init>),
    /// Connected to a peer.
    Established(TcpSocket<Established>),
}

/// The state of a session between two requests.
#[derive(Clone, Copy, Debug, PartialEq, Eq, Structural)]
pub enum SessionState {
    Init,
    Established,
}

impl SessionState {
    /// The status under which a request that the state forbids is
    /// refused.
    pub open spec fn status(self) -> Status {
        match self {
            SessionState::Init => Status::Init,
            SessionState::Established => Status::Established,
        }
    }
}

/// The session as the service's contracts speak of it.
#[derive(Clone, Copy, Debug, PartialEq, Eq, Structural)]
pub struct Session {
    /// The client that opened the session, and the only one that may
    /// act on it.
    pub owner: TaskId,
    pub state: SessionState,
    /// Where the session's socket lies on the chip.
    pub sock: Socket,
}

impl SocketState {
    /// The state that the socket is in.
    pub open spec fn state(self) -> SessionState {
        match self {
            SocketState::Open(t) => SessionState::Init,
            SocketState::Established(t) => SessionState::Established,
        }
    }

    /// Where the socket lies.
    pub open spec fn place(self) -> Socket {
        match self {
            SocketState::Open(t) => t.place(),
            SocketState::Established(t) => t.place(),
        }
    }

    /// The session of `owner` that this socket makes.
    pub open spec fn session(self, owner: TaskId) -> Session {
        Session { owner, state: self.state(), sock: self.place() }
    }

    /// Begins to close the socket: an open socket is closed at once, a
    /// connected one is disconnected first.
    fn close(self) -> (op: Operation)
        ensures
            op == Operation::closing(self.state(), self.place()),
            op.wf(),
    {
        match self {
            SocketState::Open(socket) => Operation::ClosingRaw(socket.close_raw()),
            SocketState::Established(socket) => Operation::Closing(socket.close()),
        }
    }
}

/// What the service is doing on the chip.
#[derive(Clone, Copy, Debug, PartialEq, Eq, Structural)]
pub enum Operation {
    /// Opening a socket for `sender`.
    Opening { sender: TaskId, open: Open },
    /// Accepting for `client`: telling the socket to listen.
    Listening { client: TaskId, listen: Listen },
    /// Accepting for `client`: waiting for a peer.
    Accepting { client: TaskId, accept: Accept },
    /// Reading from the connection.
    Reading(Read),
    /// Writing to the connection.
    Writing(Write),
    /// Closing a socket that was open and not connected.
    ClosingRaw(WriteRaw),
    /// Closing a connection.
    Closing(Close),
}

impl Operation {
    /// What holds of the operation at every step.
    pub open spec fn wf(self) -> bool {
        match self {
            Operation::Opening { sender, open: op } => op.wf(),
            Operation::Listening { client, listen: op } => op.wf(),
            Operation::Accepting { client, accept: op } => op.wf(),
            Operation::Reading(op) => op.wf(),
            Operation::Writing(op) => op.wf(),
            Operation::ClosingRaw(wr) => wr.wf(),
            Operation::Closing(op) => op.wf(),
        }
    }

    /// What the operation is waiting for.
    pub open spec fn pending(self) -> Action {
        match self {
            Operation::Opening { sender, open: op } => op.pending(),
            Operation::Listening { client, listen: op } => op.pending(),
            Operation::Accepting { client, accept: op } => op.pending(),
            Operation::Reading(op) => op.pending(),
            Operation::Writing(op) => op.pending(),
            Operation::ClosingRaw(wr) => wr.pending(),
            Operation::Closing(op) => op.pending(),
        }
    }

    /// The close of the socket at `sock` of a session in the state
    /// `state`, before its first exchange: a socket that is open and not
    /// connected is closed at once, a connected one is disconnected
    /// first.
    pub open spec fn closing(state: SessionState, sock: Socket) -> Operation {
        match state {
            SessionState::Init => Operation::ClosingRaw(
                WriteRaw::start(SN_CR + sock.register_offset, Payload::One(Command::Close.code())),
            ),
            SessionState::Established => Operation::Closing(Close::start(sock)),
        }
    }

    /// What the operation is waiting for: the action to perform next.
    pub fn action(&self) -> (a: Action)
        ensures
            a == self.pending(),
    {
        match self {
            Operation::Opening { sender: _, open: op } => op.action(),
            Operation::Listening { client: _, listen: op } => op.action(),
            Operation::Accepting { client: _, accept: op } => op.action(),
            Operation::Reading(op) => op.action(),
            Operation::Writing(op) => op.action(),
            Operation::ClosingRaw(wr) => wr.action(),
            Operation::Closing(op) => op.action(),
        }
    }
}

/// What a request brought.
#[derive(Clone, Copy, Debug, PartialEq, Eq, Structural)]
pub enum Response {
    /// The index of the socket that was opened.
    Socket(u8),
    /// The request was carried out.
    Done,
    /// The number of bytes read or written.
    Count(usize),
}

/// What the service wants next.
#[derive(Clone, Copy, Debug, PartialEq, Eq)]
pub enum Outcome {
    /// This is to be performed, and the service resumed with what came
    /// of it.
    Perform(Action),
    /// The request is finished; this is its result.
    Reply(Result<Response, RequestError>),
}

/// The reply that refuses a request because of the state that the
/// session is in.
pub open spec fn refused(status: Status) -> Outcome {
    Outcome::Reply(Err(RequestError::Runtime(W5100Error::BadSocketState(status.code()))))
}

/// The reply that reports a failure of the driver.
pub open spec fn failed(e: W5100Error) -> Outcome {
    Outcome::Reply(Err(RequestError::Runtime(e)))
}

/// The service as its contracts speak of it.
#[derive(Clone, Copy, Debug, PartialEq, Eq, Structural)]
pub struct ServerView {
    pub device: W5100,
    /// The session, if there is one. While it is being accepted or
    /// closed it is held by the operation and absent here.
    pub session: Option<Session>,
    /// The operation in progress, if there is one.
    pub busy: Option<Operation>,
}

impl ServerView {
    /// The service on `device` with no session and nothing in progress.
    pub open spec fn idle(device: W5100) -> ServerView {
        ServerView { device, session: None, busy: None }
    }

    /// The one socket that the service works on: socket 0 of the
    /// device's partition.
    pub open spec fn home(self) -> Socket {
        Socket::at(self.device.config(), SocketIndex::Zero)
    }

    /// What holds of the service at all times: the session lies on
    /// socket 0 of the device's partition, and so does whatever is in
    /// progress; an operation in progress is well formed; reads and
    /// writes run while the session is connected; while a socket is
    /// opened, accepted or closed there is no session beside it.
    pub open spec fn wf(self) -> bool {
        &&& self.home().wf()
        &&& self.session matches Some(s) ==> s.sock == self.home()
        &&& self.busy matches Some(op) ==> {
            &&& op.wf()
            &&& match op {
                Operation::Opening { sender, open } => self.session is None && open.sock
                    == self.home(),
                Operation::Listening { client, listen } => self.session is None && listen.sock
                    == self.home(),
                Operation::Accepting { client, accept } => self.session is None && accept.sock
                    == self.home(),
                Operation::Reading(r) => self.session matches Some(s) && s.state
                    == SessionState::Established && r.sock == self.home(),
                Operation::Writing(w) => self.session matches Some(s) && s.state
                    == SessionState::Established && w.sock == self.home(),
                Operation::ClosingRaw(wr) => self.session is None && wr == WriteRaw::start(
                    SN_CR + self.home().register_offset,
                    Payload::One(Command::Close.code()),
                ),
                Operation::Closing(close) => self.session is None && close.sock == self.home(),
            }
        }
    }

    /// The service with `op` begun and the session as it is.
    pub open spec fn doing(self, op: Operation) -> (ServerView, Outcome) {
        (ServerView { busy: Some(op), ..self }, Outcome::Perform(op.pending()))
    }

    /// The service with `op` begun and the session handed to it.
    pub open spec fn taking(self, op: Operation) -> (ServerView, Outcome) {
        (ServerView { session: None, busy: Some(op), ..self }, Outcome::Perform(op.pending()))
    }

    /// The service with nothing in progress any more, the session as it
    /// is, and `reply` for the client.
    pub open spec fn done(self, reply: Result<Response, RequestError>) -> (ServerView, Outcome) {
        (ServerView { busy: None, ..self }, Outcome::Reply(reply))
    }

    /// The service with nothing in progress any more and the session
    /// `session`.
    pub open spec fn settled(self, session: Session) -> ServerView {
        ServerView { session: Some(session), busy: None, ..self }
    }

    /// The service with nothing in progress any more and no session.
    pub open spec fn dropped(self, reply: Result<Response, RequestError>) -> (ServerView, Outcome) {
        (ServerView { session: None, busy: None, ..self }, Outcome::Reply(reply))
    }

    /// The client whose requests alone are taken, if there is a session.
    pub open spec fn recv_source(self) -> Option<TaskId> {
        match self.session {
            Some(s) => Some(s.owner),
            None => None,
        }
    }

    /// A session exists: refused, with the status of its state, and
    /// nothing changes. Otherwise socket 0 begins to be opened.
    pub open spec fn tcp_open(self, sender: TaskId, source_port: u16) -> (ServerView, Outcome) {
        match self.session {
            Some(s) => (self, refused(s.state.status())),
            None => self.doing(
                Operation::Opening {
                    sender,
                    open: Open::start(
                        Socket::at(self.device.config(), SocketIndex::Zero),
                        source_port,
                    ),
                },
            ),
        }
    }

    /// Another socket than 0, no session, or a connected one: refused,
    /// and nothing changes. Otherwise the session begins to listen.
    pub open spec fn tcp_accept(self, socket: u8) -> (ServerView, Outcome) {
        if socket != 0 {
            (self, failed(W5100Error::BadSocketNumber))
        } else {
            match self.session {
                None => (self, refused(Status::Closed)),
                Some(s) => match s.state {
                    SessionState::Established => (self, refused(Status::Established)),
                    SessionState::Init => self.taking(
                        Operation::Listening { client: s.owner, listen: Listen::start(s.sock) },
                    ),
                },
            }
        }
    }

    /// Another socket than 0, no session, or one not connected:
    /// refused, and nothing changes. Otherwise a read begins.
    pub open spec fn tcp_read(self, socket: u8, len: usize) -> (ServerView, Outcome) {
        if socket != 0 {
            (self, failed(W5100Error::BadSocketNumber))
        } else {
            match self.session {
                None => (self, refused(Status::Closed)),
                Some(s) => match s.state {
                    SessionState::Init => (self, refused(Status::Init)),
                    SessionState::Established => self.doing(
                        Operation::Reading(Read::start(s.sock, len)),
                    ),
                },
            }
        }
    }

    /// Another socket than 0, no session, or one not connected:
    /// refused, and nothing changes. Otherwise a write begins.
    pub open spec fn tcp_write(self, socket: u8, len: usize) -> (ServerView, Outcome) {
        if socket != 0 {
            (self, failed(W5100Error::BadSocketNumber))
        } else {
            match self.session {
                None => (self, refused(Status::Closed)),
                Some(s) => match s.state {
                    SessionState::Init => (self, refused(Status::Init)),
                    SessionState::Established => self.doing(
                        Operation::Writing(Write::start(s.sock, len)),
                    ),
                },
            }
        }
    }

    /// No session: done, and nothing to do. Otherwise the session is
    /// taken away and its socket begins to be closed.
    pub open spec fn close(self) -> (ServerView, Outcome) {
        match self.session {
            None => (self, Outcome::Reply(Ok(Response::Done))),
            Some(s) => self.taking(Operation::closing(s.state, s.sock)),
        }
    }

    /// Another socket than 0: refused. Otherwise as [`Self::close`].
    pub open spec fn tcp_close(self, socket: u8) -> (ServerView, Outcome) {
        if socket != 0 {
            (self, failed(W5100Error::BadSocketNumber))
        } else {
            self.close()
        }
    }

    /// The service after `ev` has answered what the operation in
    /// progress was waiting for.
    ///
    /// An open that succeeds makes the session, in state `Init` and
    /// owned by the sender. A listen that succeeds goes on to wait for a
    /// peer, and the accept that succeeds makes the session
    /// `Established`; when either fails there is no session. A read or
    /// write leaves the session as it is, unless it ends after a forced
    /// close of the socket: then there is no session. A close leaves no
    /// session, however it ends.
    pub open spec fn resume(self, ev: Event) -> (ServerView, Outcome) {
        match self.busy {
            None => (self, Outcome::Reply(Ok(Response::Done))),
            Some(Operation::Opening { sender, open: op }) => match op.step(ev) {
                Poll::Pending(o) => self.doing(Operation::Opening { sender, open: o }),
                Poll::Ready(Err(e)) => self.done(Err(RequestError::Runtime(e))),
                Poll::Ready(Ok(t)) => (
                    self.settled(
                        Session { owner: sender, state: SessionState::Init, sock: t.place() },
                    ),
                    Outcome::Reply(Ok(Response::Socket(0))),
                ),
            },
            Some(Operation::Listening { client, listen: op }) => match op.step(ev) {
                Poll::Pending(o) => self.doing(Operation::Listening { client, listen: o }),
                Poll::Ready(Err(e)) => self.done(Err(RequestError::Runtime(e))),
                Poll::Ready(Ok(t)) => self.doing(
                    Operation::Accepting { client, accept: Accept::start(t.place()) },
                ),
            },
            Some(Operation::Accepting { client, accept: op }) => match op.step(ev) {
                Poll::Pending(o) => self.doing(Operation::Accepting { client, accept: o }),
                Poll::Ready(Err(e)) => self.done(Err(RequestError::Runtime(e))),
                Poll::Ready(Ok(t)) => (
                    self.settled(
                        Session { owner: client, state: SessionState::Established, sock: t.place() },
                    ),
                    Outcome::Reply(Ok(Response::Done)),
                ),
            },
            Some(Operation::Reading(op)) => match op.step(ev) {
                Poll::Pending(o) => self.doing(Operation::Reading(o)),
                Poll::Ready(Ok(n)) => self.done(Ok(Response::Count(n))),
                Poll::Ready(Err(e)) => if op.phase is Failing {
                    self.dropped(Err(e))
                } else {
                    self.done(Err(e))
                },
            },
            Some(Operation::Writing(op)) => match op.step(ev) {
                Poll::Pending(o) => self.doing(Operation::Writing(o)),
                Poll::Ready(Ok(n)) => self.done(Ok(Response::Count(n))),
                Poll::Ready(Err(e)) => if op.phase is Failing {
                    self.dropped(Err(e))
                } else {
                    self.done(Err(e))
                },
            },
            Some(Operation::ClosingRaw(wr)) => match wr.step(ev) {
                Poll::Pending(w) => self.doing(Operation::ClosingRaw(w)),
                Poll::Ready(Err(e)) => self.done(Err(RequestError::Runtime(e))),
                Poll::Ready(Ok(())) => self.done(Ok(Response::Done)),
            },
            Some(Operation::Closing(op)) => match op.step(ev) {
                Poll::Pending(o) => self.doing(Operation::Closing(o)),
                Poll::Ready(Err(e)) => self.done(Err(RequestError::Runtime(e))),
                Poll::Ready(Ok(())) => self.done(Ok(Response::Done)),
            },
        }
    }
}

/// The service.
pub struct ServerImpl {
    device: W5100,
    socket: Option<(TaskId, SocketState)>,
    busy: Option<Operation>,
}

impl View for ServerImpl {
    type V = ServerView;

    closed spec fn view(&self) -> ServerView {
        ServerView {
            device: self.device,
            session: match self.socket {
                Some((owner, state)) => Some(state.session(owner)),
                None => None,
            },
            busy: self.busy,
        }
    }
}

impl ServerImpl {
    /// The service on a chip that has been reset: no session, nothing in
    /// progress.
    pub fn new(device: W5100) -> (server: ServerImpl)
        ensures
            server@ == ServerView::idle(device),
            server@.wf(),
    {
        ServerImpl { device, socket: None, busy: None }
    }

    /// The client whose requests alone are to be taken: the owner of the
    /// session, if there is one.
    pub fn recv_source(&self) -> (source: Option<TaskId>)
        ensures
            source == self@.recv_source(),
    {
        match &self.socket {
            Some((task_id, _)) => Some(*task_id),
            None => None,
        }
    }

    /// What the operation in progress is waiting for, if one is in
    /// progress.
    pub fn action(&self) -> (a: Option<Action>)
        ensures
            self@.busy matches Some(op) ==> a == Some(op.pending()),
            self@.busy is None ==> a is None,
    {
        match &self.busy {
            Some(op) => Some(op.action()),
            None => None,
        }
    }

    /// The owning client is gone: closes the session, if there is one.
    /// However the close ends, there is no session afterwards, and the
    /// service takes the next client's open.
    pub fn closed_recv_fail(&mut self) -> (out: Outcome)
        requires
            old(self)@.wf(),
            old(self)@.busy is None,
        ensures
            (final(self)@, out) == old(self)@.close(),
            final(self)@.wf(),
    {
        self.close()
    }

    /// Closes the session, if there is one.
    pub fn close(&mut self) -> (out: Outcome)
        requires
            old(self)@.wf(),
            old(self)@.busy is None,
        ensures
            (final(self)@, out) == old(self)@.close(),
            final(self)@.wf(),
    {
        match self.socket.take() {
            Some((_, socket)) => {
                let op = socket.close();
                self.busy = Some(op);
                Outcome::Perform(op.action())
            },
            None => Outcome::Reply(Ok(Response::Done)),
        }
    }

    /// A client asks for a socket on `source_port`. It is legal only
    /// while there is no session.
    pub fn tcp_open(&mut self, sender: TaskId, source_port: u16) -> (out: Outcome)
        requires
            old(self)@.wf(),
            old(self)@.busy is None,
        ensures
            (final(self)@, out) == old(self)@.tcp_open(sender, source_port),
            final(self)@.wf(),
    {
        match &self.socket {
            None => (),
            Some((_, SocketState::Open(_))) => {
                return Outcome::Reply(
                    Err(RequestError::Runtime(W5100Error::BadSocketState(Status::Init.to_u8()))),
                );
            },
            Some((_, SocketState::Established(_))) => {
                return Outcome::Reply(
                    Err(
                        RequestError::Runtime(
                            W5100Error::BadSocketState(Status::Established.to_u8()),
                        ),
                    ),
                );
            },
        }
        let socket_index = SocketIndex::Zero;
        let op = Operation::Opening {
            sender,
            open: TcpSocket::open(&self.device, socket_index, source_port),
        };
        self.busy = Some(op);
        Outcome::Perform(op.action())
    }

    /// The client asks to wait for a peer. It is legal only while the
    /// session is open and not connected.
    pub fn tcp_accept(&mut self, socket: u8) -> (out: Outcome)
        requires
            old(self)@.wf(),
            old(self)@.busy is None,
        ensures
            (final(self)@, out) == old(self)@.tcp_accept(socket),
            final(self)@.wf(),
    {
        if socket != 0 {
            return Outcome::Reply(Err(RequestError::Runtime(W5100Error::BadSocketNumber)));
        }
        match self.socket.take() {
            Some((client, SocketState::Open(socket))) => {
                let op = Operation::Listening { client, listen: socket.listen() };
                self.busy = Some(op);
                Outcome::Perform(op.action())
            },
            None => Outcome::Reply(
                Err(RequestError::Runtime(W5100Error::BadSocketState(Status::Closed.to_u8()))),
            ),
            Some((client, SocketState::Established(socket))) => {
                self.socket = Some((client, SocketState::Established(socket)));
                Outcome::Reply(
                    Err(
                        RequestError::Runtime(
                            W5100Error::BadSocketState(Status::Established.to_u8()),
                        ),
                    ),
                )
            },
        }
    }

    /// The client asks for up to `len` bytes. It is legal only while the
    /// session is connected.
    pub fn tcp_read(&mut self, socket: u8, len: usize) -> (out: Outcome)
        requires
            old(self)@.wf(),
            old(self)@.busy is None,
            len <= LEASE_LIMIT,
        ensures
            (final(self)@, out) == old(self)@.tcp_read(socket, len),
            final(self)@.wf(),
    {
        if socket != 0 {
            return Outcome::Reply(Err(RequestError::Runtime(W5100Error::BadSocketNumber)));
        }
        let op = match &self.socket {
            Some((_, SocketState::Established(socket))) => Operation::Reading(socket.read(len)),
            None => {
                return Outcome::Reply(
                    Err(RequestError::Runtime(W5100Error::BadSocketState(Status::Closed.to_u8()))),
                );
            },
            Some((_, SocketState::Open(_))) => {
                return Outcome::Reply(
                    Err(RequestError::Runtime(W5100Error::BadSocketState(Status::Init.to_u8()))),
                );
            },
        };
        self.busy = Some(op);
        Outcome::Perform(op.action())
    }

    /// The client offers up to `len` bytes. It is legal only while the
    /// session is connected.
    pub fn tcp_write(&mut self, socket: u8, len: usize) -> (out: Outcome)
        requires
            old(self)@.wf(),
            old(self)@.busy is None,
            len <= LEASE_LIMIT,
        ensures
            (final(self)@, out) == old(self)@.tcp_write(socket, len),
            final(self)@.wf(),
    {
        if socket != 0 {
            return Outcome::Reply(Err(RequestError::Runtime(W5100Error::BadSocketNumber)));
        }
        let op = match &self.socket {
            Some((_, SocketState::Established(socket))) => Operation::Writing(socket.write(len)),
            None => {
                return Outcome::Reply(
                    Err(RequestError::Runtime(W5100Error::BadSocketState(Status::Closed.to_u8()))),
                );
            },
            Some((_, SocketState::Open(_))) => {
                return Outcome::Reply(
                    Err(RequestError::Runtime(W5100Error::BadSocketState(Status::Init.to_u8()))),
                );
            },
        };
        self.busy = Some(op);
        Outcome::Perform(op.action())
    }

    /// The client asks to close. Closing what is closed is no error.
    pub fn tcp_close(&mut self, socket: u8) -> (out: Outcome)
        requires
            old(self)@.wf(),
            old(self)@.busy is None,
        ensures
            (final(self)@, out) == old(self)@.tcp_close(socket),
            final(self)@.wf(),
    {
        if socket != 0 {
            return Outcome::Reply(Err(RequestError::Runtime(W5100Error::BadSocketNumber)));
        }
        self.close()
    }

    /// Takes what came of the action that the operation in progress was
    /// waiting for.
    pub fn resume(&mut self, ev: Event) -> (out: Outcome)
        requires
            old(self)@.wf(),
            old(self)@.busy matches Some(op) && op.pending().answered_by(ev),
        ensures
            (final(self)@, out) == old(self)@.resume(ev),
            final(self)@.wf(),
    {
        let busy = self.busy;
        match busy {
            None => Outcome::Reply(Ok(Response::Done)),
            Some(Operation::Opening { sender, open }) => self.resume_open(sender, open, ev),
            Some(Operation::Listening { client, listen }) => self.resume_listen(client, listen, ev),
            Some(Operation::Accepting { client, accept }) => self.resume_accept(client, accept, ev),
            Some(Operation::Reading(op)) => self.resume_read(op, ev),
            Some(Operation::Writing(op)) => self.resume_write(op, ev),
            Some(Operation::ClosingRaw(wr)) => self.resume_close_raw(wr, ev),
            Some(Operation::Closing(op)) => self.resume_close(op, ev),
        }
    }

    fn resume_open(&mut self, sender: TaskId, op: Open, ev: Event) -> (out: Outcome)
        requires
            old(self)@.wf(),
            old(self)@.busy == Some(Operation::Opening { sender, open: op }),
            op.pending().answered_by(ev),
        ensures
            (final(self)@, out) == old(self)@.resume(ev),
            final(self)@.wf(),
    {
        match op.resume(ev) {
            Poll::Pending(o) => self.proceed(Operation::Opening { sender, open: o }),
            Poll::Ready(Err(e)) => self.finish(Err(RequestError::Runtime(e))),
            Poll::Ready(Ok(socket)) => {
                let _ = socket.socket();
                self.busy = None;
                self.socket = Some((sender, SocketState::Open(socket)));
                Outcome::Reply(Ok(Response::Socket(SocketIndex::Zero.to_u8())))
            },
        }
    }

    fn resume_listen(&mut self, client: TaskId, op: Listen, ev: Event) -> (out: Outcome)
        requires
            old(self)@.wf(),
            old(self)@.busy == Some(Operation::Listening { client, listen: op }),
            op.pending().answered_by(ev),
        ensures
            (final(self)@, out) == old(self)@.resume(ev),
            final(self)@.wf(),
    {
        match op.resume(ev) {
            Poll::Pending(o) => self.proceed(Operation::Listening { client, listen: o }),
            Poll::Ready(Err(e)) => self.finish(Err(RequestError::Runtime(e))),
            Poll::Ready(Ok(socket)) => self.proceed(
                Operation::Accepting { client, accept: socket.accept() },
            ),
        }
    }

    fn resume_accept(&mut self, client: TaskId, op: Accept, ev: Event) -> (out: Outcome)
        requires
            old(self)@.wf(),
            old(self)@.busy == Some(Operation::Accepting { client, accept: op }),
            op.pending().answered_by(ev),
        ensures
            (final(self)@, out) == old(self)@.resume(ev),
            final(self)@.wf(),
    {
        match op.resume(ev) {
            Poll::Pending(o) => self.proceed(Operation::Accepting { client, accept: o }),
            Poll::Ready(Err(e)) => self.finish(Err(RequestError::Runtime(e))),
            Poll::Ready(Ok(socket)) => {
                let _ = socket.socket();
                self.busy = None;
                self.socket = Some((client, SocketState::Established(socket)));
                Outcome::Reply(Ok(Response::Done))
            },
        }
    }

    fn resume_read(&mut self, op: Read, ev: Event) -> (out: Outcome)
        requires
            old(self)@.wf(),
            old(self)@.busy == Some(Operation::Reading(op)),
            op.pending().answered_by(ev),
        ensures
            (final(self)@, out) == old(self)@.resume(ev),
            final(self)@.wf(),
    {
        let forced: bool = op.is_failing();
        match op.resume(ev) {
            Poll::Pending(o) => {
                proof {
                    lemma_read_step(op, ev);
                }
                self.proceed(Operation::Reading(o))
            },
            Poll::Ready(Ok(n)) => self.finish(Ok(Response::Count(n))),
            Poll::Ready(Err(e)) => if forced {
                self.forget(Err(e))
            } else {
                self.finish(Err(e))
            },
        }
    }

    fn resume_write(&mut self, op: Write, ev: Event) -> (out: Outcome)
        requires
            old(self)@.wf(),
            old(self)@.busy == Some(Operation::Writing(op)),
            op.pending().answered_by(ev),
        ensures
            (final(self)@, out) == old(self)@.resume(ev),
            final(self)@.wf(),
    {
        let forced: bool = op.is_failing();
        match op.resume(ev) {
            Poll::Pending(o) => {
                proof {
                    lemma_write_step(op, ev);
                }
                self.proceed(Operation::Writing(o))
            },
            Poll::Ready(Ok(n)) => self.finish(Ok(Response::Count(n))),
            Poll::Ready(Err(e)) => if forced {
                self.forget(Err(e))
            } else {
                self.finish(Err(e))
            },
        }
    }

    fn resume_close_raw(&mut self, wr: WriteRaw, ev: Event) -> (out: Outcome)
        requires
            old(self)@.wf(),
            old(self)@.busy == Some(Operation::ClosingRaw(wr)),
            wr.pending().answered_by(ev),
        ensures
            (final(self)@, out) == old(self)@.resume(ev),
            final(self)@.wf(),
    {
        match wr.resume(ev) {
            Poll::Pending(w) => self.proceed(Operation::ClosingRaw(w)),
            Poll::Ready(Err(e)) => self.finish(Err(RequestError::Runtime(e))),
            Poll::Ready(Ok(())) => self.finish(Ok(Response::Done)),
        }
    }

    fn resume_close(&mut self, op: Close, ev: Event) -> (out: Outcome)
        requires
            old(self)@.wf(),
            old(self)@.busy == Some(Operation::Closing(op)),
            op.pending().answered_by(ev),
        ensures
            (final(self)@, out) == old(self)@.resume(ev),
            final(self)@.wf(),
    {
        match op.resume(ev) {
            Poll::Pending(o) => self.proceed(Operation::Closing(o)),
            Poll::Ready(Err(e)) => self.finish(Err(RequestError::Runtime(e))),
            Poll::Ready(Ok(())) => self.finish(Ok(Response::Done)),
        }
    }

    /// Ends the operation in progress and forgets the session.
    fn forget(&mut self, reply: Result<Response, RequestError>) -> (out: Outcome)
        ensures
            (final(self)@, out) == old(self)@.dropped(reply),
    {
        self.busy = None;
        self.socket = None;
        Outcome::Reply(reply)
    }

    /// Goes on with `op` and leaves the session as it is.
    fn proceed(&mut self, op: Operation) -> (out: Outcome)
        ensures
            (final(self)@, out) == old(self)@.doing(op),
    {
        self.busy = Some(op);
        Outcome::Perform(op.action())
    }

    /// Ends the operation in progress and leaves the session as it is.
    fn finish(&mut self, reply: Result<Response, RequestError>) -> (out: Outcome)
        ensures
            (final(self)@, out) == old(self)@.done(reply),
    {
        self.busy = None;
        Outcome::Reply(reply)
    }
}

/// Where the session stands in its life.
#[derive(Clone, Copy, Debug, PartialEq, Eq, Structural)]
pub enum Stage {
    /// There is no session: none was opened yet, or the last one has
    /// ended.
    Closed,
    Init,
    Listening,
    Established,
}

/// Whether a session at stage `a` may be at stage `b` one step later: it
/// stays, it moves one stage on, or it ends. From `Closed` the one
/// stage on is the `Init` of a new session.
pub open spec fn follows(a: Stage, b: Stage) -> bool {
    ||| b == a
    ||| b == Stage::Closed
    ||| a == Stage::Closed && b == Stage::Init
    ||| a == Stage::Init && b == Stage::Listening
    ||| a == Stage::Listening && b == Stage::Established
}

impl ServerView {
    /// The stage of the session. While it is told to listen it is still
    /// at `Init`; while it waits for a peer it is at `Listening`.
    pub open spec fn stage(self) -> Stage {
        match self.busy {
            Some(Operation::Listening { client, listen }) => Stage::Init,
            Some(Operation::Accepting { client, accept }) => Stage::Listening,
            _ => match self.session {
                None => Stage::Closed,
                Some(s) => match s.state {
                    SessionState::Init => Stage::Init,
                    SessionState::Established => Stage::Established,
                },
            },
        }
    }
}

/// What always holds of the service goes on holding when it is resumed.
pub proof fn lemma_resume_wf(s: ServerView, ev: Event)
    requires
        s.wf(),
        s.busy matches Some(op) && op.pending().answered_by(ev),
    ensures
        s.resume(ev).0.wf(),
        s.resume(ev).0.device == s.device,
        s.resume(ev).1 matches Outcome::Perform(a) ==> s.resume(ev).0.busy matches Some(op)
            && op.pending() == a,
        s.resume(ev).1 is Reply ==> s.resume(ev).0.busy is None,
{
    match s.busy->0 {
        Operation::Opening { sender, open } => {
            lemma_open_step(open, ev);
            lemma_place::<Init>(open.sock, TcpSocket::on(open.sock));
        },
        Operation::Listening { client, listen } => {
            lemma_listen_step(listen, ev);
            lemma_place::<Listening>(listen.sock, TcpSocket::on(listen.sock));
        },
        Operation::Accepting { client, accept } => {
            lemma_accept_step(accept, ev);
            lemma_place::<Established>(accept.sock, TcpSocket::on(accept.sock));
        },
        Operation::Reading(op) => {
            lemma_read_step(op, ev);
        },
        Operation::Writing(op) => {
            lemma_write_step(op, ev);
        },
        Operation::ClosingRaw(wr) => {
            lemma_write_raw_step(wr, ev);
        },
        Operation::Closing(op) => {
            lemma_close_wf(op, ev);
        },
    }
}

/// What always holds of the service goes on holding when it takes a
/// request; a request that is refused changes nothing; and a request
/// that is not refused leaves the service waiting for an action.
pub proof fn lemma_request_wf(s: ServerView, sender: TaskId, port: u16, socket: u8, len: usize)
    requires
        s.wf(),
        s.busy is None,
        len <= LEASE_LIMIT,
    ensures
        s.tcp_open(sender, port).0.wf(),
        s.tcp_accept(socket).0.wf(),
        s.tcp_read(socket, len).0.wf(),
        s.tcp_write(socket, len).0.wf(),
        s.tcp_close(socket).0.wf(),
        s.close().0.wf(),
        s.tcp_open(sender, port).1 is Reply ==> s.tcp_open(sender, port).0 == s,
        s.tcp_accept(socket).1 is Reply ==> s.tcp_accept(socket).0 == s,
        s.tcp_read(socket, len).1 is Reply ==> s.tcp_read(socket, len).0 == s,
        s.tcp_write(socket, len).1 is Reply ==> s.tcp_write(socket, len).0 == s,
        s.tcp_close(socket).1 is Reply ==> s.tcp_close(socket).0 == s,
{
}

/// The session only moves forward. Whatever the service is resumed
/// with, and whatever request it takes, the session stays at its stage,
/// moves on to the next (`Init`, `Listening`, `Established`), or ends:
/// it never comes back to an earlier stage.
pub proof fn lemma_session_moves_forward(
    s: ServerView,
    ev: Event,
    sender: TaskId,
    port: u16,
    socket: u8,
    len: usize,
)
    requires
        s.wf(),
    ensures
        s.busy matches Some(op) && op.pending().answered_by(ev) ==> follows(
            s.stage(),
            s.resume(ev).0.stage(),
        ),
        s.busy is None ==> {
            &&& follows(s.stage(), s.tcp_open(sender, port).0.stage())
            &&& follows(s.stage(), s.tcp_accept(socket).0.stage())
            &&& follows(s.stage(), s.tcp_read(socket, len).0.stage())
            &&& follows(s.stage(), s.tcp_write(socket, len).0.stage())
            &&& follows(s.stage(), s.tcp_close(socket).0.stage())
            &&& follows(s.stage(), s.close().0.stage())
        },
{
    if s.busy is Some && s.busy->0.pending().answered_by(ev) {
        lemma_resume_wf(s, ev);
    }
}

/// A fault of the protocol ends the session, and the chip's socket is
/// closed before the fault is reported: when the service replies with
/// such a fault to what it was resumed with, the action that was just
/// answered was the exchange of the `Close` command on the socket in
/// question, and there is no session afterwards.
pub proof fn lemma_fault_closes(s: ServerView, ev: Event, e: W5100Error)
    requires
        s.wf(),
        s.busy matches Some(op) && op.pending().answered_by(ev),
        s.resume(ev).1 == failed(e),
        is_protocol_fault(e),
    ensures
        s.busy->0.pending() == command_stream(s.home(), Command::Close),
        s.resume(ev).0.session is None,
        s.resume(ev).0.stage() == Stage::Closed,
{
    match s.busy->0 {
        Operation::Opening { sender, open } => {
            lemma_open_step(open, ev);
        },
        Operation::Listening { client, listen } => {
            lemma_listen_step(listen, ev);
        },
        Operation::Accepting { client, accept } => {
            lemma_accept_step(accept, ev);
        },
        Operation::Reading(op) => {
            lemma_read_step(op, ev);
        },
        Operation::Writing(op) => {
            lemma_write_step(op, ev);
        },
        Operation::ClosingRaw(wr) => {
            lemma_write_raw_step(wr, ev);
        },
        Operation::Closing(op) => {
            lemma_close_wf(op, ev);
        },
    }
}

/// When the peer has closed, a read ends with 0 and without error: the
/// read of a connected session asks for the status register, and when
/// that reads as `CloseWait` the client is told 0 bytes, nothing more is
/// exchanged, and the session is as it was.
pub proof fn lemma_read_at_peer_close(s: ServerView, len: usize)
    requires
        s.wf(),
        s.busy is None,
        s.session matches Some(x) && x.state == SessionState::Established,
        len <= LEASE_LIMIT,
    ensures
        s.tcp_read(0, len).1 == Outcome::Perform(status_stream(s.session->0.sock)),
        s.tcp_read(0, len).0.resume(Event::Exchanged(Status::CloseWait.code())) == (
            s,
            Outcome::Reply(Ok(Response::Count(0))),
        ),
{
}

/// While there is a session, in whatever state, a request to open is
/// refused with the status of that state, and the service is as it was.
pub proof fn lemma_open_refused(s: ServerView, sender: TaskId, port: u16)
    requires
        s.session is Some,
    ensures
        s.tcp_open(sender, port) == (s, refused(s.session->0.state.status())),
        s.session->0.state == SessionState::Init ==> s.tcp_open(sender, port).1 == failed(
            W5100Error::BadSocketState(0x13),
        ),
        s.session->0.state == SessionState::Established ==> s.tcp_open(sender, port).1 == failed(
            W5100Error::BadSocketState(0x17),
        ),
{
}

/// When the client of a connected session is gone, the service
/// disconnects, then issues `Close`, and is left as new: it takes a
/// request to open from any client, and begins to open socket 0 for it.
pub proof fn lemma_client_death(
    s: ServerView,
    first: u8,
    second: u8,
    newcomer: TaskId,
    port: u16,
)
    requires
        s.wf(),
        s.busy is None,
        s.session matches Some(x) && x.state == SessionState::Established,
    ensures
        s.session->0.sock == s.home(),
        s.home().register_offset == 0,
        s.close().0.session is None,
        s.close().1 == Outcome::Perform(command_stream(s.home(), Command::Disconnect)),
        s.close().0.resume(Event::Exchanged(first)).1 == Outcome::Perform(
            command_stream(s.home(), Command::Close),
        ),
        s.close().0.resume(Event::Exchanged(first)).0.resume(Event::Exchanged(second)) == (
            ServerView::idle(s.device),
            Outcome::Reply(Ok(Response::Done)),
        ),
        ServerView::idle(s.device).tcp_open(newcomer, port).1 is Perform,
        ServerView::idle(s.device).tcp_open(newcomer, port).0.busy matches Some(
            Operation::Opening { sender, open },
        ) && sender == newcomer,
{
    lemma_close_step(s.session->0.sock, first, second);
}

/// A close leaves no session, however it ends: from the moment the
/// close is begun there is none, and whatever the service is resumed
/// with while it closes, there is none afterwards. So the death of a
/// client never leaves the service unable to take the next open.
pub proof fn lemma_close_leaves_no_session(s: ServerView, ev: Event)
    requires
        s.wf(),
        s.busy matches Some(op) && (op is Closing || op is ClosingRaw) && op.pending().answered_by(
            ev,
        ),
    ensures
        s.session is None,
        s.resume(ev).0.session is None,
        s.resume(ev).0.wf(),
        s.resume(ev).1 is Reply ==> s.resume(ev).0 == ServerView::idle(s.device),
{
    lemma_resume_wf(s, ev);
}

/// When the client of a session that is open and not connected is gone,
/// the service issues `Close` and is left as new.
pub proof fn lemma_client_death_before_accept(s: ServerView, answer: u8)
    requires
        s.wf(),
        s.busy is None,
        s.session matches Some(x) && x.state == SessionState::Init,
    ensures
        s.session->0.sock == s.home(),
        s.close().0.session is None,
        s.close().1 == Outcome::Perform(command_stream(s.home(), Command::Close)),
        s.close().0.resume(Event::Exchanged(answer)) == (
            ServerView::idle(s.device),
            Outcome::Reply(Ok(Response::Done)),
        ),
{
}

} // verus!
