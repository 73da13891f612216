//! Chip-wide register driver: resets and configures the chip and moves
//! bytes to and from its registers, one command stream per byte.

pub mod buffer;
pub mod reset;
pub mod socket;
pub mod spi_stream;

use vstd::prelude::*;
use crate::bus::{Action, Event, Poll, Transaction};
use crate::error::{ClientError, RequestError, W5100Error};
use crate::w5100::spi_stream::{stream, SpiStream, OP_READ, OP_WRITE};

verus! {

/// How the chip's 8 KiB of transmit and 8 KiB of receive memory are
/// shared out: among one, two or four sockets, all of one size.
#[derive(Clone, Copy, Debug, PartialEq, Eq, Structural)]
pub enum SocketConfig {
    OneSocket8Kib,
    TwoSockets4KiB,
    FourSockets2KiB,
}

/// How the chip gets its addresses.
#[derive(Clone, Copy, Debug)]
pub enum NetworkConfig {
    Static { ip: [u8; 4], subnet: [u8; 4], gateway: [u8; 4] },
}

/// Bits of the chip's mode register.
#[derive(Clone, Copy, Debug, PartialEq, Eq, Structural)]
pub struct Mode {
    pub bits: u8,
}

/// Mode bit: software reset.
pub const MODE_RESET: u8 = 0x80;

/// Mode bit: do not answer pings.
pub const MODE_PING_BLOCK: u8 = 0x10;

/// Mode bit: address auto-increment on the indirect bus.
pub const MODE_ADDRESS_AUTO_INCREMENT: u8 = 0x02;

impl Mode {
    /// No bit set.
    pub fn empty() -> (m: Mode)
        ensures
            m.bits == 0,
    {
        Mode { bits: 0 }
    }

    /// Software reset; the chip clears the bit when it is done.
    pub fn reset() -> (m: Mode)
        ensures
            m.bits == MODE_RESET,
    {
        Mode { bits: MODE_RESET }
    }

    /// Do not answer pings.
    pub fn ping_block() -> (m: Mode)
        ensures
            m.bits == MODE_PING_BLOCK,
    {
        Mode { bits: MODE_PING_BLOCK }
    }

    /// Address auto-increment on the indirect bus.
    pub fn address_auto_increment() -> (m: Mode)
        ensures
            m.bits == MODE_ADDRESS_AUTO_INCREMENT,
    {
        Mode { bits: MODE_ADDRESS_AUTO_INCREMENT }
    }

    /// The bits of both.
    pub fn union(self, other: Mode) -> (m: Mode)
        ensures
            m.bits == self.bits | other.bits,
    {
        Mode { bits: self.bits | other.bits }
    }

    /// The bits as the register holds them.
    pub fn bits(&self) -> (b: u8)
        ensures
            b == self.bits,
    {
        self.bits
    }
}

/// The bytes of one register write, most significant first.
#[derive(Clone, Copy, Debug, PartialEq, Eq, Structural)]
pub enum Payload {
    One(u8),
    Two(u8, u8),
    Four(u8, u8, u8, u8),
    Six(u8, u8, u8, u8, u8, u8),
}

impl Payload {
    /// The bytes in the order in which they are written.
    pub open spec fn bytes(self) -> Seq<u8> {
        match self {
            Payload::One(a) => seq![a],
            Payload::Two(a, b) => seq![a, b],
            Payload::Four(a, b, c, d) => seq![a, b, c, d],
            Payload::Six(a, b, c, d, e, f) => seq![a, b, c, d, e, f],
        }
    }

    /// The two bytes of `v`, big-endian.
    pub open spec fn of_u16(v: u16) -> Payload {
        Payload::Two((v / 256) as u8, (v % 256) as u8)
    }

    /// The four bytes of `v` in their order.
    pub open spec fn of_4(v: [u8; 4]) -> Payload {
        Payload::Four(v[0], v[1], v[2], v[3])
    }

    /// The six bytes of `v` in their order.
    pub open spec fn of_6(v: [u8; 6]) -> Payload {
        Payload::Six(v[0], v[1], v[2], v[3], v[4], v[5])
    }

    /// The two bytes of `v`, big-endian.
    pub fn from_u16(v: u16) -> (p: Payload)
        ensures
            p == Payload::of_u16(v),
    {
        assert(v >> 8 == v / 256 && v & 0xff == v % 256) by (bit_vector);
        Payload::Two((v >> 8) as u8, (v & 0xff) as u8)
    }

    /// The four bytes of `v` in their order.
    pub fn from_4(v: [u8; 4]) -> (p: Payload)
        ensures
            p == Payload::of_4(v),
    {
        Payload::Four(v[0], v[1], v[2], v[3])
    }

    /// The six bytes of `v` in their order.
    pub fn from_6(v: [u8; 6]) -> (p: Payload)
        ensures
            p == Payload::of_6(v),
    {
        Payload::Six(v[0], v[1], v[2], v[3], v[4], v[5])
    }

    /// How many bytes there are.
    pub fn len(&self) -> (n: u8)
        ensures
            n == self.bytes().len(),
            1 <= n <= 6,
    {
        match self {
            Payload::One(_) => 1,
            Payload::Two(_, _) => 2,
            Payload::Four(_, _, _, _) => 4,
            Payload::Six(_, _, _, _, _, _) => 6,
        }
    }

    /// The byte at index `i`.
    pub fn byte(&self, i: u8) -> (b: u8)
        requires
            i < self.bytes().len(),
        ensures
            b == self.bytes()[i as int],
    {
        match *self {
            Payload::One(a) => a,
            Payload::Two(a, b) => if i == 0 { a } else { b },
            Payload::Four(a, b, c, d) => if i == 0 {
                a
            } else if i == 1 {
                b
            } else if i == 2 {
                c
            } else {
                d
            },
            Payload::Six(a, b, c, d, e, f) => if i == 0 {
                a
            } else if i == 1 {
                b
            } else if i == 2 {
                c
            } else if i == 3 {
                d
            } else if i == 4 {
                e
            } else {
                f
            },
        }
    }
}

/// Address of the mode register.
pub const REG_MR: u16 = 0x0000;

/// Address of the gateway address register, four bytes.
pub const REG_GAR: u16 = 0x0001;

/// Address of the subnet mask register, four bytes.
pub const REG_SUBR: u16 = 0x0005;

/// Address of the source hardware address register, six bytes.
pub const REG_SHAR: u16 = 0x0009;

/// Address of the source IP address register, four bytes.
pub const REG_SIPR: u16 = 0x000f;

/// Address of the receive memory size register.
pub const REG_RMSR: u16 = 0x001a;

/// Address of the transmit memory size register.
pub const REG_TMSR: u16 = 0x001b;

/// A chip-wide register that can be written, with the value to write.
#[derive(Clone, Copy, Debug)]
pub enum WriteableRegister {
    /// Mode.
    Mr(Mode),
    /// Gateway IP address.
    Gar([u8; 4]),
    /// Subnet mask.
    Subr([u8; 4]),
    /// MAC ("source hardware address").
    Shar([u8; 6]),
    /// IP address ("source IP address").
    Sipr([u8; 4]),
    /// RX memory size mask.
    Rmsr(u8),
    /// TX memory size mask.
    Tmsr(u8),
}

impl WriteableRegister {
    /// The register's address.
    pub open spec fn addr(self) -> u16 {
        match self {
            WriteableRegister::Mr(_) => REG_MR,
            WriteableRegister::Gar(_) => REG_GAR,
            WriteableRegister::Subr(_) => REG_SUBR,
            WriteableRegister::Shar(_) => REG_SHAR,
            WriteableRegister::Sipr(_) => REG_SIPR,
            WriteableRegister::Rmsr(_) => REG_RMSR,
            WriteableRegister::Tmsr(_) => REG_TMSR,
        }
    }

    /// The bytes to write.
    pub open spec fn payload(self) -> Payload {
        match self {
            WriteableRegister::Mr(mode) => Payload::One(mode.bits),
            WriteableRegister::Gar(val) => Payload::of_4(val),
            WriteableRegister::Subr(val) => Payload::of_4(val),
            WriteableRegister::Shar(val) => Payload::of_6(val),
            WriteableRegister::Sipr(val) => Payload::of_4(val),
            WriteableRegister::Rmsr(val) => Payload::One(val),
            WriteableRegister::Tmsr(val) => Payload::One(val),
        }
    }
}

/// A chip-wide register that is read as one byte.
#[derive(Clone, Copy, Debug, PartialEq, Eq, Structural)]
pub enum ReadableRegisterU8 {
    Mr,
}

/// A register write in progress: the bytes of `data` go to consecutive
/// registers, one exchange each.
#[derive(Clone, Copy, Debug, PartialEq, Eq, Structural)]
pub struct WriteRaw {
    /// The stream whose exchange is awaited: it carries byte `sent`.
    pub cmd: SpiStream,
    pub data: Payload,
    /// How many bytes have gone through.
    pub sent: u8,
}

impl WriteRaw {
    /// The write of `data` to the registers from `addr` on, before its
    /// first exchange.
    pub open spec fn start(addr: int, data: Payload) -> WriteRaw {
        WriteRaw { cmd: stream(OP_WRITE, addr, data.bytes()[0]), data, sent: 0 }
    }

    /// The register that byte 0 goes to.
    pub open spec fn base(self) -> int {
        self.cmd.addr() - self.sent
    }

    /// What holds of the write at every step.
    pub open spec fn wf(self) -> bool {
        &&& self.sent < self.data.bytes().len()
        &&& self.cmd == stream(
            OP_WRITE,
            self.base() + self.sent,
            self.data.bytes()[self.sent as int],
        )
        &&& 0 <= self.base()
        &&& self.base() + self.data.bytes().len() <= 0x10000
    }

    /// What the write is waiting for.
    pub open spec fn pending(self) -> Action {
        Action::Exchange(self.cmd)
    }

    /// The write after `ev`: a transport failure ends it; after the last
    /// byte it is done; otherwise the next byte goes to the next register.
    pub open spec fn step(self, ev: Event) -> Poll<WriteRaw, Result<(), W5100Error>> {
        match ev {
            Event::TransportFailed(e) => Poll::Ready(Err(W5100Error::SpiError(e))),
            _ => if self.sent + 1 == self.data.bytes().len() {
                Poll::Ready(Ok(()))
            } else {
                Poll::Pending(
                    WriteRaw {
                        cmd: stream(
                            OP_WRITE,
                            self.cmd.addr() + 1,
                            self.data.bytes()[self.sent + 1],
                        ),
                        data: self.data,
                        sent: (self.sent + 1) as u8,
                    },
                )
            },
        }
    }

    /// What the write is waiting for: the action to perform next.
    pub fn action(&self) -> (a: Action)
        ensures
            a == self.pending(),
    {
        Action::Exchange(self.cmd)
    }

    /// Takes what came of the awaited action and goes on.
    pub fn resume(self, ev: Event) -> (r: Poll<WriteRaw, Result<(), W5100Error>>)
        requires
            self.wf(),
            self.pending().answered_by(ev),
        ensures
            r == self.step(ev),
            r matches Poll::Pending(m) ==> m.wf() && m.base() == self.base() && m.data
                == self.data,
    {
        match W5100::exchanged(ev) {
            Err(e) => Poll::Ready(Err(e)),
            Ok(_) => {
                let next: u8 = self.sent + 1;
                if next == self.data.len() {
                    Poll::Ready(Ok(()))
                } else {
                    let mut cmd = self.cmd;
                    cmd.set_data(self.data.byte(next));
                    cmd.increment_addr();
                    Poll::Pending(WriteRaw { cmd, data: self.data, sent: next })
                }
            },
        }
    }
}

/// A one-byte register read in progress.
#[derive(Clone, Copy, Debug, PartialEq, Eq, Structural)]
pub struct ReadU8 {
    pub cmd: SpiStream,
}

impl ReadU8 {
    /// The read before its first action.
    pub open spec fn start(addr: int) -> ReadU8 {
        ReadU8 { cmd: stream(OP_READ, addr, 0) }
    }

    /// What the read is waiting for.
    pub open spec fn pending(self) -> Action {
        Action::Exchange(self.cmd)
    }

    /// The byte that the chip sent, or the transport's failure.
    pub open spec fn outcome(self, ev: Event) -> Result<u8, W5100Error> {
        match ev {
            Event::Exchanged(b) => Ok(b),
            Event::TransportFailed(e) => Err(W5100Error::SpiError(e)),
            _ => Ok(0),
        }
    }

    /// What the read is waiting for: the action to perform next.
    pub fn action(&self) -> (a: Action)
        ensures
            a == self.pending(),
    {
        Action::Exchange(self.cmd)
    }

    /// Takes what came of the exchange.
    pub fn finish(self, ev: Event) -> (r: Result<u8, W5100Error>)
        requires
            self.pending().answered_by(ev),
        ensures
            r == self.outcome(ev),
    {
        W5100::exchanged(ev)
    }
}

/// A two-byte register read in progress; the register at the lower
/// address holds the high byte.
#[derive(Clone, Copy, Debug, PartialEq, Eq, Structural)]
pub struct ReadU16 {
    pub cmd: SpiStream,
    /// The high byte, once it has been read.
    pub high: Option<u8>,
}

impl ReadU16 {
    /// The read before its first action.
    pub open spec fn start(addr: int) -> ReadU16 {
        ReadU16 { cmd: stream(OP_READ, addr, 0), high: None }
    }

    /// The register that the high byte comes from.
    pub open spec fn base(self) -> int {
        if self.high is Some {
            self.cmd.addr() - 1
        } else {
            self.cmd.addr()
        }
    }

    /// What holds of the read at every step.
    pub open spec fn wf(self) -> bool {
        &&& self.cmd == stream(OP_READ, self.cmd.addr(), 0)
        &&& self.high is None ==> self.cmd.addr() < 0xffff
        &&& 0 <= self.base()
    }

    /// What the read is waiting for.
    pub open spec fn pending(self) -> Action {
        Action::Exchange(self.cmd)
    }

    /// The read after `ev`: the first byte is the high one and the read
    /// goes on to the next register; the second completes the number. A
    /// transport failure ends it.
    pub open spec fn step(self, ev: Event) -> Poll<ReadU16, Result<u16, W5100Error>> {
        match ev {
            Event::TransportFailed(e) => Poll::Ready(Err(W5100Error::SpiError(e))),
            Event::Exchanged(b) => match self.high {
                None => Poll::Pending(
                    ReadU16 { cmd: stream(OP_READ, self.cmd.addr() + 1, 0), high: Some(b) },
                ),
                Some(hi) => Poll::Ready(Ok((hi * 256 + b) as u16)),
            },
            _ => Poll::Pending(self),
        }
    }

    /// What the read is waiting for: the action to perform next.
    pub fn action(&self) -> (a: Action)
        ensures
            a == self.pending(),
    {
        Action::Exchange(self.cmd)
    }

    /// Takes what came of the awaited action and goes on.
    pub fn resume(self, ev: Event) -> (r: Poll<ReadU16, Result<u16, W5100Error>>)
        requires
            self.wf(),
            self.pending().answered_by(ev),
        ensures
            r == self.step(ev),
            r matches Poll::Pending(m) ==> m.wf() && m.base() == self.base(),
    {
        match W5100::exchanged(ev) {
            Err(e) => Poll::Ready(Err(e)),
            Ok(b) => match self.high {
                None => {
                    let mut cmd = self.cmd;
                    cmd.increment_addr();
                    Poll::Pending(ReadU16 { cmd, high: Some(b) })
                },
                Some(hi) => {
                    let v: u16 = (hi as u16) * 256 + (b as u16);
                    Poll::Ready(Ok(v))
                },
            },
        }
    }
}

/// A transfer from consecutive registers into the client's buffer, in
/// progress: each byte is read from the chip and then stored.
#[derive(Clone, Copy, Debug, PartialEq, Eq, Structural)]
pub struct ReadRawLease {
    /// The stream that reads the current byte.
    pub cmd: SpiStream,
    /// Where in the client's buffer the current byte goes.
    pub pos: usize,
    /// How many bytes are left, the current one included.
    pub left: u16,
    /// The current byte, once it has been read and waits to be stored.
    pub holding: Option<u8>,
}

impl ReadRawLease {
    /// The transfer before its first action.
    pub open spec fn start(addr: int, len: u16, pos: usize) -> ReadRawLease {
        ReadRawLease { cmd: stream(OP_READ, addr, 0), pos, left: len, holding: None }
    }

    /// What holds of the transfer at every step.
    pub open spec fn wf(self) -> bool {
        &&& self.left >= 1
        &&& self.cmd == stream(OP_READ, self.cmd.addr(), 0)
        &&& self.cmd.addr() + self.left <= 0x10000
        &&& self.pos + self.left <= usize::MAX
    }

    /// What the transfer is waiting for.
    pub open spec fn pending(self) -> Action {
        match self.holding {
            None => Action::Exchange(self.cmd),
            Some(b) => Action::LeaseWrite(self.pos, b),
        }
    }

    /// The transfer after `ev`: a byte that came from the chip is held
    /// until it is stored in the client's buffer; once it is stored the
    /// transfer is done if it was the last, and goes on to the next
    /// register and the next index otherwise. A failure of the transport
    /// or of the client's buffer ends it.
    pub open spec fn step(self, ev: Event) -> Poll<ReadRawLease, Result<(), RequestError>> {
        match ev {
            Event::TransportFailed(e) => Poll::Ready(
                Err(RequestError::Runtime(W5100Error::SpiError(e))),
            ),
            Event::LeaseGone => Poll::Ready(Err(RequestError::Fail(ClientError::WentAway))),
            Event::Exchanged(b) => Poll::Pending(ReadRawLease { holding: Some(b), ..self }),
            _ => if self.left == 1 {
                Poll::Ready(Ok(()))
            } else {
                Poll::Pending(
                    ReadRawLease {
                        cmd: stream(OP_READ, self.cmd.addr() + 1, 0),
                        pos: (self.pos + 1) as usize,
                        left: (self.left - 1) as u16,
                        holding: None,
                    },
                )
            },
        }
    }

    /// What the transfer is waiting for: the action to perform next.
    pub fn action(&self) -> (a: Action)
        ensures
            a == self.pending(),
    {
        match self.holding {
            None => Action::Exchange(self.cmd),
            Some(b) => Action::LeaseWrite(self.pos, b),
        }
    }

    /// Takes what came of the awaited action and goes on.
    pub fn resume(self, ev: Event) -> (r: Poll<ReadRawLease, Result<(), RequestError>>)
        requires
            self.wf(),
            self.pending().answered_by(ev),
        ensures
            r == self.step(ev),
            r matches Poll::Pending(m) ==> m.wf(),
    {
        match self.holding {
            None => match W5100::exchanged(ev) {
                Err(e) => Poll::Ready(Err(RequestError::Runtime(e))),
                Ok(b) => Poll::Pending(
                    ReadRawLease { cmd: self.cmd, pos: self.pos, left: self.left, holding: Some(b) },
                ),
            },
            Some(_) => match ev {
                Event::LeaseGone => Poll::Ready(Err(RequestError::Fail(ClientError::WentAway))),
                _ => if self.left == 1 {
                    Poll::Ready(Ok(()))
                } else {
                    let mut cmd = self.cmd;
                    cmd.increment_addr();
                    Poll::Pending(
                        ReadRawLease {
                            cmd,
                            pos: self.pos + 1,
                            left: self.left - 1,
                            holding: None,
                        },
                    )
                },
            },
        }
    }
}

/// A transfer from the client's buffer into consecutive registers, in
/// progress: each byte is fetched and then written to the chip.
#[derive(Clone, Copy, Debug, PartialEq, Eq, Structural)]
pub struct WriteRawLease {
    /// The stream that writes the current byte, once it is loaded.
    pub cmd: SpiStream,
    /// Where in the client's buffer the current byte comes from.
    pub pos: usize,
    /// How many bytes are left, the current one included.
    pub left: u16,
    /// Whether the current byte has been fetched into `cmd`.
    pub loaded: bool,
}

impl WriteRawLease {
    /// The transfer before its first action.
    pub open spec fn start(addr: int, len: u16, pos: usize) -> WriteRawLease {
        WriteRawLease { cmd: stream(OP_WRITE, addr, 0), pos, left: len, loaded: false }
    }

    /// What holds of the transfer at every step.
    pub open spec fn wf(self) -> bool {
        &&& self.left >= 1
        &&& self.cmd == stream(OP_WRITE, self.cmd.addr(), self.cmd.data)
        &&& self.cmd.addr() + self.left <= 0x10000
        &&& self.pos + self.left <= usize::MAX
    }

    /// What the transfer is waiting for.
    pub open spec fn pending(self) -> Action {
        if self.loaded {
            Action::Exchange(self.cmd)
        } else {
            Action::LeaseRead(self.pos)
        }
    }

    /// The transfer after `ev`: a byte that came from the client's buffer
    /// goes into the stream; once that is exchanged the transfer is done
    /// if it was the last byte, and goes on to the next register and the
    /// next index otherwise. A failure of the transport or of the client's
    /// buffer ends it.
    pub open spec fn step(self, ev: Event) -> Poll<WriteRawLease, Result<(), RequestError>> {
        match ev {
            Event::TransportFailed(e) => Poll::Ready(
                Err(RequestError::Runtime(W5100Error::SpiError(e))),
            ),
            Event::LeaseGone => Poll::Ready(Err(RequestError::Fail(ClientError::WentAway))),
            Event::LeaseByte(b) => Poll::Pending(
                WriteRawLease { cmd: SpiStream { data: b, ..self.cmd }, loaded: true, ..self },
            ),
            _ => if self.left == 1 {
                Poll::Ready(Ok(()))
            } else {
                Poll::Pending(
                    WriteRawLease {
                        cmd: stream(OP_WRITE, self.cmd.addr() + 1, self.cmd.data),
                        pos: (self.pos + 1) as usize,
                        left: (self.left - 1) as u16,
                        loaded: false,
                    },
                )
            },
        }
    }

    /// What the transfer is waiting for: the action to perform next.
    pub fn action(&self) -> (a: Action)
        ensures
            a == self.pending(),
    {
        if self.loaded {
            Action::Exchange(self.cmd)
        } else {
            Action::LeaseRead(self.pos)
        }
    }

    /// Takes what came of the awaited action and goes on.
    pub fn resume(self, ev: Event) -> (r: Poll<WriteRawLease, Result<(), RequestError>>)
        requires
            self.wf(),
            self.pending().answered_by(ev),
        ensures
            r == self.step(ev),
            r matches Poll::Pending(m) ==> m.wf(),
    {
        if self.loaded {
            match W5100::exchanged(ev) {
                Err(e) => Poll::Ready(Err(RequestError::Runtime(e))),
                Ok(_) => if self.left == 1 {
                    Poll::Ready(Ok(()))
                } else {
                    let mut cmd = self.cmd;
                    cmd.increment_addr();
                    Poll::Pending(
                        WriteRawLease {
                            cmd,
                            pos: self.pos + 1,
                            left: self.left - 1,
                            loaded: false,
                        },
                    )
                },
            }
        } else {
            match ev {
                Event::LeaseByte(b) => {
                    let mut cmd = self.cmd;
                    cmd.set_data(b);
                    Poll::Pending(
                        WriteRawLease { cmd, pos: self.pos, left: self.left, loaded: true },
                    )
                },
                _ => Poll::Ready(Err(RequestError::Fail(ClientError::WentAway))),
            }
        }
    }
}

/// The chip, once it has been reset and its memory shared out.
#[derive(Clone, Copy, Debug, PartialEq, Eq, Structural)]
pub struct W5100 {
    socket_config: SocketConfig,
}

impl W5100 {
    /// The chip after a reset that shared its memory out as `config`
    /// says.
    pub closed spec fn with(config: SocketConfig) -> W5100 {
        W5100 { socket_config: config }
    }

    /// How the chip's memory is shared out.
    pub closed spec fn config(self) -> SocketConfig {
        self.socket_config
    }

    /// How the chip's memory is shared out.
    pub fn socket_config(&self) -> (c: SocketConfig)
        ensures
            c == self.config(),
            *self == W5100::with(c),
    {
        self.socket_config
    }

    /// The handle that a finished reset yields.
    fn after_reset(config: SocketConfig) -> (device: W5100)
        ensures
            device == W5100::with(config),
            device.config() == config,
    {
        W5100 { socket_config: config }
    }

    /// Begins one exchange with the chip: chip-select is asserted for
    /// exactly the four bytes of `cmd` and released on every path.
    pub fn exchange_raw(cmd: &SpiStream) -> (tx: Transaction)
        ensures
            tx == Transaction::start(*cmd),
            tx.wf(),
    {
        Transaction::begin(*cmd)
    }

    /// What one exchange brought: the byte at wire position 3, or the
    /// transport's failure as it came. Nothing is tried again.
    pub fn exchanged(ev: Event) -> (r: Result<u8, W5100Error>)
        requires
            ev is Exchanged || ev is TransportFailed,
        ensures
            ev matches Event::Exchanged(b) ==> r == Ok::<u8, W5100Error>(b),
            ev matches Event::TransportFailed(e) ==> r == Err::<u8, W5100Error>(
                W5100Error::SpiError(e),
            ),
    {
        match ev {
            Event::Exchanged(b) => Ok(b),
            Event::TransportFailed(e) => Err(W5100Error::SpiError(e)),
            _ => Ok(0),
        }
    }

    /// Begins to write `data` to the registers from `addr` on.
    pub fn write_raw(addr: u16, data: Payload) -> (m: WriteRaw)
        requires
            addr + data.bytes().len() <= 0x10000,
        ensures
            m == WriteRaw::start(addr as int, data),
            m.wf(),
            m.base() == addr,
    {
        WriteRaw { cmd: SpiStream::write(addr, data.byte(0)), data, sent: 0 }
    }

    /// Begins to write a register.
    pub fn write_reg(reg: WriteableRegister) -> (m: WriteRaw)
        ensures
            m == WriteRaw::start(reg.addr() as int, reg.payload()),
            m.wf(),
    {
        match reg {
            WriteableRegister::Mr(mode) => Self::write_raw(REG_MR, Payload::One(mode.bits())),
            WriteableRegister::Gar(val) => Self::write_raw(REG_GAR, Payload::from_4(val)),
            WriteableRegister::Subr(val) => Self::write_raw(REG_SUBR, Payload::from_4(val)),
            WriteableRegister::Shar(val) => Self::write_raw(REG_SHAR, Payload::from_6(val)),
            WriteableRegister::Sipr(val) => Self::write_raw(REG_SIPR, Payload::from_4(val)),
            WriteableRegister::Rmsr(val) => Self::write_raw(REG_RMSR, Payload::One(val)),
            WriteableRegister::Tmsr(val) => Self::write_raw(REG_TMSR, Payload::One(val)),
        }
    }

    /// Begins to read the register at `addr`.
    pub fn read_u8(addr: u16) -> (m: ReadU8)
        ensures
            m == ReadU8::start(addr as int),
    {
        ReadU8 { cmd: SpiStream::read(addr) }
    }

    /// Begins to read a register.
    pub fn read_reg_u8(reg: ReadableRegisterU8) -> (m: ReadU8)
        ensures
            m == ReadU8::start(REG_MR as int),
    {
        let addr: u16 = match reg {
            ReadableRegisterU8::Mr => REG_MR,
        };
        Self::read_u8(addr)
    }

    /// Begins to read the two registers at `addr` and `addr + 1` as one
    /// big-endian number.
    pub fn read_u16(addr: u16) -> (m: ReadU16)
        requires
            addr < 0xffff,
        ensures
            m == ReadU16::start(addr as int),
            m.wf(),
    {
        ReadU16 { cmd: SpiStream::read(addr), high: None }
    }

    /// Begins to move `len` bytes from the registers from `addr` on into
    /// the client's buffer from `pos` on.
    pub fn read_raw_lease(addr: u16, len: u16, pos: usize) -> (m: ReadRawLease)
        requires
            len > 0,
            addr + len <= 0x10000,
            pos + len <= usize::MAX,
        ensures
            m == ReadRawLease::start(addr as int, len, pos),
            m.wf(),
    {
        ReadRawLease { cmd: SpiStream::read(addr), pos, left: len, holding: None }
    }

    /// Begins to move `len` bytes from the client's buffer from `pos` on
    /// into the registers from `addr` on.
    pub fn write_raw_lease(addr: u16, len: u16, pos: usize) -> (m: WriteRawLease)
        requires
            len > 0,
            addr + len <= 0x10000,
            pos + len <= usize::MAX,
        ensures
            m == WriteRawLease::start(addr as int, len, pos),
            m.wf(),
    {
        WriteRawLease { cmd: SpiStream::write(addr, 0), pos, left: len, loaded: false }
    }
}

/// A register write puts byte `k` of its data into register `base + k`:
/// what it waits for is the exchange of exactly that stream, and after
/// an exchange that went through it is one byte further on the same
/// registers with the same data, or done after the last byte. It ends
/// in failure if and only if the transport failed.
pub proof fn lemma_write_raw_step(m: WriteRaw, ev: Event)
    requires
        m.wf(),
        m.pending().answered_by(ev),
    ensures
        m.pending() == Action::Exchange(
            stream(OP_WRITE, m.base() + m.sent, m.data.bytes()[m.sent as int]),
        ),
        m.step(ev) matches Poll::Pending(n) ==> n.wf() && n.base() == m.base() && n.data == m.data
            && n.sent == m.sent + 1,
        m.step(ev) is Pending <==> ev is Exchanged && m.sent + 1 < m.data.bytes().len(),
        m.step(ev) == Poll::<WriteRaw, Result<(), W5100Error>>::Ready(Ok(())) <==> ev is Exchanged
            && m.sent + 1 == m.data.bytes().len(),
        ev matches Event::TransportFailed(e) ==> m.step(ev) == Poll::<
            WriteRaw,
            Result<(), W5100Error>,
        >::Ready(Err(W5100Error::SpiError(e))),
{
}

/// A two-byte read takes the high byte from the register it was begun
/// at and the low byte from the next one, and yields `high * 256 + low`.
pub proof fn lemma_read_u16_step(addr: u16, high: u8, low: u8)
    requires
        addr < 0xffff,
    ensures
        ReadU16::start(addr as int).wf(),
        ReadU16::start(addr as int).pending() == Action::Exchange(stream(OP_READ, addr as int, 0)),
        ReadU16::start(addr as int).step(Event::Exchanged(high)) matches Poll::Pending(m) && m.wf()
            && m.pending() == Action::Exchange(stream(OP_READ, addr + 1, 0)) && m.step(
            Event::Exchanged(low),
        ) == Poll::<ReadU16, Result<u16, W5100Error>>::Ready(Ok((high * 256 + low) as u16)),
{
}

/// A two-byte read in progress stays well formed and on its registers.
pub proof fn lemma_read_u16_wf(m: ReadU16, ev: Event)
    requires
        m.wf(),
        m.pending().answered_by(ev),
    ensures
        m.step(ev) matches Poll::Pending(n) ==> n.wf() && n.base() == m.base(),
{
}

/// A transfer into the client's buffer stores each byte as it came from
/// the chip, keeps register and buffer index in step, and never runs
/// past the bytes it was begun for.
pub proof fn lemma_read_raw_lease_step(m: ReadRawLease, ev: Event)
    requires
        m.wf(),
        m.pending().answered_by(ev),
    ensures
        m.step(ev) matches Poll::Pending(n) ==> n.wf() && n.cmd.addr() - n.pos == m.cmd.addr()
            - m.pos && n.pos + n.left == m.pos + m.left,
        ev matches Event::Exchanged(b) ==> m.step(ev) matches Poll::Pending(n) && n.pending()
            == Action::LeaseWrite(m.pos, b),
        ev is LeaseWritten ==> (m.step(ev) == Poll::<ReadRawLease, Result<(), RequestError>>::Ready(
            Ok(()),
        ) <==> m.left == 1),
        ev is LeaseGone ==> m.step(ev) == Poll::<ReadRawLease, Result<(), RequestError>>::Ready(
            Err(RequestError::Fail(ClientError::WentAway)),
        ),
        ev matches Event::TransportFailed(e) ==> m.step(ev) == Poll::<
            ReadRawLease,
            Result<(), RequestError>,
        >::Ready(Err(RequestError::Runtime(W5100Error::SpiError(e)))),
{
}

/// A transfer out of the client's buffer writes each byte as it came
/// from the buffer, keeps register and buffer index in step, and never
/// runs past the bytes it was begun for.
pub proof fn lemma_write_raw_lease_step(m: WriteRawLease, ev: Event)
    requires
        m.wf(),
        m.pending().answered_by(ev),
    ensures
        m.step(ev) matches Poll::Pending(n) ==> n.wf() && n.cmd.addr() - n.pos == m.cmd.addr()
            - m.pos && n.pos + n.left == m.pos + m.left,
        ev matches Event::LeaseByte(b) ==> m.step(ev) matches Poll::Pending(n) && n.pending()
            == Action::Exchange(stream(OP_WRITE, m.cmd.addr(), b)),
        ev is Exchanged ==> (m.step(ev) == Poll::<WriteRawLease, Result<(), RequestError>>::Ready(
            Ok(()),
        ) <==> m.left == 1),
        ev is LeaseGone ==> m.step(ev) == Poll::<WriteRawLease, Result<(), RequestError>>::Ready(
            Err(RequestError::Fail(ClientError::WentAway)),
        ),
        ev matches Event::TransportFailed(e) ==> m.step(ev) == Poll::<
            WriteRawLease,
            Result<(), RequestError>,
        >::Ready(Err(RequestError::Runtime(W5100Error::SpiError(e)))),
{
}

/// The handle that a reset yields says how the reset shared the chip's
/// memory out.
pub proof fn lemma_config(config: SocketConfig)
    ensures
        W5100::with(config).config() == config,
{
}

impl ReadRawLease {
    /// The transfer after each of `bytes` came from the chip and was
    /// stored, one after the other.
    pub open spec fn fed(self, bytes: Seq<u8>) -> Poll<ReadRawLease, Result<(), RequestError>>
        decreases bytes.len(),
    {
        if bytes.len() == 0 {
            Poll::Pending(self)
        } else {
            match self.step(Event::Exchanged(bytes[0])) {
                Poll::Pending(held) => match held.step(Event::LeaseWritten) {
                    Poll::Pending(next) => next.fed(bytes.subrange(1, bytes.len() as int)),
                    Poll::Ready(r) => Poll::Ready(r),
                },
                Poll::Ready(r) => Poll::Ready(r),
            }
        }
    }
}

/// A transfer of `left` bytes into the client's buffer is done after
/// exactly `left` bytes have come from the chip and have been stored,
/// and not before: after `k` of them it stands `k` registers and `k`
/// indices further, with `k` bytes fewer to go.
pub proof fn lemma_read_raw_lease_fed(m: ReadRawLease, bytes: Seq<u8>)
    requires
        m.wf(),
        m.holding is None,
        bytes.len() <= m.left,
    ensures
        bytes.len() < m.left ==> m.fed(bytes) == Poll::<
            ReadRawLease,
            Result<(), RequestError>,
        >::Pending(
            ReadRawLease {
                cmd: stream(OP_READ, m.cmd.addr() + bytes.len(), 0),
                pos: (m.pos + bytes.len()) as usize,
                left: (m.left - bytes.len()) as u16,
                holding: None,
            },
        ),
        bytes.len() == m.left ==> m.fed(bytes) == Poll::<
            ReadRawLease,
            Result<(), RequestError>,
        >::Ready(Ok(())),
    decreases bytes.len(),
{
    if bytes.len() > 0 {
        let held = ReadRawLease { holding: Some(bytes[0]), ..m };
        assert(m.step(Event::Exchanged(bytes[0])) == Poll::<
            ReadRawLease,
            Result<(), RequestError>,
        >::Pending(held));
        if m.left > 1 {
            let next = ReadRawLease {
                cmd: stream(OP_READ, m.cmd.addr() + 1, 0),
                pos: (m.pos + 1) as usize,
                left: (m.left - 1) as u16,
                holding: None,
            };
            assert(held.step(Event::LeaseWritten) == Poll::<
                ReadRawLease,
                Result<(), RequestError>,
            >::Pending(next));
            lemma_read_raw_lease_fed(next, bytes.subrange(1, bytes.len() as int));
        }
    }
}

impl WriteRawLease {
    /// The transfer after each of `bytes` came from the client's buffer
    /// and was written to the chip, one after the other.
    pub open spec fn fed(self, bytes: Seq<u8>) -> Poll<WriteRawLease, Result<(), RequestError>>
        decreases bytes.len(),
    {
        if bytes.len() == 0 {
            Poll::Pending(self)
        } else {
            match self.step(Event::LeaseByte(bytes[0])) {
                Poll::Pending(loaded) => match loaded.step(Event::Exchanged(0)) {
                    Poll::Pending(next) => next.fed(bytes.subrange(1, bytes.len() as int)),
                    Poll::Ready(r) => Poll::Ready(r),
                },
                Poll::Ready(r) => Poll::Ready(r),
            }
        }
    }
}

/// A transfer of `left` bytes out of the client's buffer is done after
/// exactly `left` bytes have come from the buffer and have been written
/// to the chip, and not before: after `k` of them it stands `k`
/// registers and `k` indices further, with `k` bytes fewer to go.
pub proof fn lemma_write_raw_lease_fed(m: WriteRawLease, bytes: Seq<u8>)
    requires
        m.wf(),
        !m.loaded,
        bytes.len() <= m.left,
    ensures
        0 < bytes.len() < m.left ==> m.fed(bytes) == Poll::<
            WriteRawLease,
            Result<(), RequestError>,
        >::Pending(
            WriteRawLease {
                cmd: stream(OP_WRITE, m.cmd.addr() + bytes.len(), bytes.last()),
                pos: (m.pos + bytes.len()) as usize,
                left: (m.left - bytes.len()) as u16,
                loaded: false,
            },
        ),
        bytes.len() == m.left ==> m.fed(bytes) == Poll::<
            WriteRawLease,
            Result<(), RequestError>,
        >::Ready(Ok(())),
    decreases bytes.len(),
{
    if bytes.len() > 0 {
        let loaded = WriteRawLease { cmd: SpiStream { data: bytes[0], ..m.cmd }, loaded: true, ..m };
        assert(m.step(Event::LeaseByte(bytes[0])) == Poll::<
            WriteRawLease,
            Result<(), RequestError>,
        >::Pending(loaded));
        if m.left > 1 {
            let next = WriteRawLease {
                cmd: stream(OP_WRITE, m.cmd.addr() + 1, bytes[0]),
                pos: (m.pos + 1) as usize,
                left: (m.left - 1) as u16,
                loaded: false,
            };
            assert(loaded.step(Event::Exchanged(0)) == Poll::<
                WriteRawLease,
                Result<(), RequestError>,
            >::Pending(next));
            let rest = bytes.subrange(1, bytes.len() as int);
            lemma_write_raw_lease_fed(next, rest);
            if rest.len() > 0 {
                assert(rest.last() == bytes.last());
            }
        }
    }
}

} // verus!
