//! One socket of the chip: where its registers and its two circular
//! buffers lie, and how bytes are moved through those buffers.

use vstd::prelude::*;
use crate::bus::{Action, Event, Poll};
use crate::error::{RequestError, W5100Error};
use crate::w5100::{
    Payload, ReadRawLease, ReadU16, ReadU8, SocketConfig, WriteRaw, WriteRawLease, W5100,
};

verus! {

/// What the chip reports of a socket in its status register.
#[derive(Clone, Copy, Debug, PartialEq, Eq, Structural)]
pub enum Status {
    Closed,
    Init,
    Listen,
    Established,
    CloseWait,
    Udp,
    IpRaw,
    MacRaw,
    Pppoe,
    SynSent,
    SynRecv,
    FinWait,
    Closing,
    TimeWait,
    LastAck,
    ArpTcp,
    ArpUdp,
    ArpIcmp,
}

impl Status {
    /// The byte that stands for the status in the register.
    pub open spec fn code(self) -> u8 {
        match self {
            Status::Closed => 0x00,
            Status::Init => 0x13,
            Status::Listen => 0x14,
            Status::Established => 0x17,
            Status::CloseWait => 0x1c,
            Status::Udp => 0x22,
            Status::IpRaw => 0x32,
            Status::MacRaw => 0x42,
            Status::Pppoe => 0x5f,
            Status::SynSent => 0x15,
            Status::SynRecv => 0x16,
            Status::FinWait => 0x18,
            Status::Closing => 0x1a,
            Status::TimeWait => 0x1b,
            Status::LastAck => 0x1d,
            Status::ArpTcp => 0x11,
            Status::ArpUdp => 0x21,
            Status::ArpIcmp => 0x31,
        }
    }

    /// The status that a register byte stands for, if it stands for one.
    pub open spec fn decode(raw: u8) -> Option<Status> {
        if raw == 0x00 {
            Some(Status::Closed)
        } else if raw == 0x13 {
            Some(Status::Init)
        } else if raw == 0x14 {
            Some(Status::Listen)
        } else if raw == 0x17 {
            Some(Status::Established)
        } else if raw == 0x1c {
            Some(Status::CloseWait)
        } else if raw == 0x22 {
            Some(Status::Udp)
        } else if raw == 0x32 {
            Some(Status::IpRaw)
        } else if raw == 0x42 {
            Some(Status::MacRaw)
        } else if raw == 0x5f {
            Some(Status::Pppoe)
        } else if raw == 0x15 {
            Some(Status::SynSent)
        } else if raw == 0x16 {
            Some(Status::SynRecv)
        } else if raw == 0x18 {
            Some(Status::FinWait)
        } else if raw == 0x1a {
            Some(Status::Closing)
        } else if raw == 0x1b {
            Some(Status::TimeWait)
        } else if raw == 0x1d {
            Some(Status::LastAck)
        } else if raw == 0x11 {
            Some(Status::ArpTcp)
        } else if raw == 0x21 {
            Some(Status::ArpUdp)
        } else if raw == 0x31 {
            Some(Status::ArpIcmp)
        } else {
            None
        }
    }

    /// The byte that stands for it in the register.
    pub fn to_u8(self) -> (raw: u8)
        ensures
            raw == self.code(),
    {
        match self {
            Status::Closed => 0x00,
            Status::Init => 0x13,
            Status::Listen => 0x14,
            Status::Established => 0x17,
            Status::CloseWait => 0x1c,
            Status::Udp => 0x22,
            Status::IpRaw => 0x32,
            Status::MacRaw => 0x42,
            Status::Pppoe => 0x5f,
            Status::SynSent => 0x15,
            Status::SynRecv => 0x16,
            Status::FinWait => 0x18,
            Status::Closing => 0x1a,
            Status::TimeWait => 0x1b,
            Status::LastAck => 0x1d,
            Status::ArpTcp => 0x11,
            Status::ArpUdp => 0x21,
            Status::ArpIcmp => 0x31,
        }
    }

    /// The status that a register byte stands for, if it stands for one.
    pub fn from_u8(raw: u8) -> (status: Option<Status>)
        ensures
            status == Status::decode(raw),
    {
        match raw {
            0x00 => Some(Status::Closed),
            0x13 => Some(Status::Init),
            0x14 => Some(Status::Listen),
            0x17 => Some(Status::Established),
            0x1c => Some(Status::CloseWait),
            0x22 => Some(Status::Udp),
            0x32 => Some(Status::IpRaw),
            0x42 => Some(Status::MacRaw),
            0x5f => Some(Status::Pppoe),
            0x15 => Some(Status::SynSent),
            0x16 => Some(Status::SynRecv),
            0x18 => Some(Status::FinWait),
            0x1a => Some(Status::Closing),
            0x1b => Some(Status::TimeWait),
            0x1d => Some(Status::LastAck),
            0x11 => Some(Status::ArpTcp),
            0x21 => Some(Status::ArpUdp),
            0x31 => Some(Status::ArpIcmp),
            _ => None,
        }
    }
}

/// A status is decoded from its own byte, and from no other.
pub proof fn lemma_status_round_trip(status: Status, raw: u8)
    ensures
        Status::decode(status.code()) == Some(status),
        Status::decode(raw) == Some(status) ==> raw == status.code(),
{
}

/// Bits of a socket's mode register.
#[derive(Clone, Copy, Debug, PartialEq, Eq, Structural)]
pub struct Mode {
    pub bits: u8,
}

/// Socket mode bit: multicast, for UDP only.
pub const MODE_MULTICAST: u8 = 0x80;

/// Socket mode bit: no delayed ACK, for TCP.
pub const MODE_NO_DELAYED_ACK: u8 = 0x20;

/// Socket mode bit: IGMP version 1 rather than 2, for UDP with multicast.
pub const MODE_IGMP_VERSION: u8 = 0x20;

/// Socket mode: no protocol.
pub const MODE_PROTO_CLOSED: u8 = 0x00;

/// Socket mode: TCP.
pub const MODE_PROTO_TCP: u8 = 0x01;

/// Socket mode: UDP.
pub const MODE_PROTO_UDP: u8 = 0x02;

/// Socket mode: raw IP.
pub const MODE_PROTO_RAW: u8 = 0x03;

impl Mode {
    /// The mode of a TCP socket.
    pub fn proto_tcp() -> (m: Mode)
        ensures
            m.bits == MODE_PROTO_TCP,
    {
        Mode { bits: MODE_PROTO_TCP }
    }

    /// The bits as the register holds them.
    pub fn bits(&self) -> (b: u8)
        ensures
            b == self.bits,
    {
        self.bits
    }
}

/// What a socket can be told to do through its command register.
#[derive(Clone, Copy, Debug, PartialEq, Eq, Structural)]
pub enum Command {
    Open,
    Listen,
    Connect,
    Disconnect,
    Close,
    Send,
    SendMac,
    SendKeep,
    Recv,
}

impl Command {
    /// The byte that stands for the command in the register.
    pub open spec fn code(self) -> u8 {
        match self {
            Command::Open => 0x01,
            Command::Listen => 0x02,
            Command::Connect => 0x04,
            Command::Disconnect => 0x08,
            Command::Close => 0x10,
            Command::Send => 0x20,
            Command::SendMac => 0x21,
            Command::SendKeep => 0x22,
            Command::Recv => 0x40,
        }
    }

    /// The byte that stands for it in the register.
    pub fn to_u8(self) -> (raw: u8)
        ensures
            raw == self.code(),
    {
        match self {
            Command::Open => 0x01,
            Command::Listen => 0x02,
            Command::Connect => 0x04,
            Command::Disconnect => 0x08,
            Command::Close => 0x10,
            Command::Send => 0x20,
            Command::SendMac => 0x21,
            Command::SendKeep => 0x22,
            Command::Recv => 0x40,
        }
    }
}

/// Which of the chip's four sockets.
#[derive(Clone, Copy, Debug, PartialEq, Eq, Structural)]
pub enum SocketIndex {
    Zero,
    One,
    Two,
    Three,
}

impl SocketIndex {
    /// The socket's number.
    pub open spec fn number(self) -> u8 {
        match self {
            SocketIndex::Zero => 0,
            SocketIndex::One => 1,
            SocketIndex::Two => 2,
            SocketIndex::Three => 3,
        }
    }

    /// The socket's number.
    pub fn to_u8(self) -> (n: u8)
        ensures
            n == self.number(),
    {
        match self {
            SocketIndex::Zero => 0,
            SocketIndex::One => 1,
            SocketIndex::Two => 2,
            SocketIndex::Three => 3,
        }
    }

    /// The socket with the number `n`, if the chip has one.
    pub fn from_u8(n: u8) -> (index: Option<SocketIndex>)
        ensures
            n < 4 ==> index is Some && index->0.number() == n,
            n >= 4 ==> index is None,
    {
        match n {
            0 => Some(SocketIndex::Zero),
            1 => Some(SocketIndex::One),
            2 => Some(SocketIndex::Two),
            3 => Some(SocketIndex::Three),
            _ => None,
        }
    }
}

impl From<SocketIndex> for u8 {
    fn from(idx: SocketIndex) -> (n: u8) {
        idx.to_u8()
    }
}

impl vstd::std_specs::convert::FromSpecImpl<SocketIndex> for u8 {
    open spec fn obeys_from_spec() -> bool {
        true
    }

    open spec fn from_spec(idx: SocketIndex) -> u8 {
        idx.number()
    }
}

/// Where the per-socket registers begin.
pub const SOCKET_REGISTERS: u16 = 0x0400;

/// Where the sockets' transmit memory begins.
pub const TX_MEMORY: u16 = 0x4000;

/// Where the sockets' receive memory begins.
pub const RX_MEMORY: u16 = 0x6000;

/// Address of socket 0's mode register.
pub const SN_MR: u16 = 0x0400;

/// Address of socket 0's command register.
pub const SN_CR: u16 = 0x0401;

/// Address of socket 0's status register.
pub const SN_SR: u16 = 0x0403;

/// Address of socket 0's source port register, two bytes.
pub const SN_PORT: u16 = 0x0404;

/// Address of socket 0's transmit free size register, two bytes.
pub const SN_TX_FSR: u16 = 0x0420;

/// Address of socket 0's transmit write pointer, two bytes.
pub const SN_TX_WR: u16 = 0x0424;

/// Address of socket 0's received size register, two bytes.
pub const SN_RX_RSR: u16 = 0x0426;

/// Address of socket 0's receive read pointer, two bytes.
pub const SN_RX_RD: u16 = 0x0428;

/// The longest client buffer that one transfer takes.
pub const LEASE_LIMIT: usize = 8192;

impl SocketConfig {
    /// How many sockets the partition serves.
    pub open spec fn sockets(self) -> int {
        match self {
            SocketConfig::OneSocket8Kib => 1,
            SocketConfig::TwoSockets4KiB => 2,
            SocketConfig::FourSockets2KiB => 4,
        }
    }

    /// How many bytes of transmit memory, and as many of receive memory,
    /// each socket gets.
    pub open spec fn buf_size(self) -> int {
        match self {
            SocketConfig::OneSocket8Kib => 8192,
            SocketConfig::TwoSockets4KiB => 4096,
            SocketConfig::FourSockets2KiB => 2048,
        }
    }

    /// Tests whether the partition serves the socket `index`.
    pub fn serves(&self, index: SocketIndex) -> (ok: bool)
        ensures
            ok == (index.number() < self.sockets()),
    {
        let n: u8 = index.to_u8();
        match self {
            SocketConfig::OneSocket8Kib => n < 1,
            SocketConfig::TwoSockets4KiB => n < 2,
            SocketConfig::FourSockets2KiB => n < 4,
        }
    }
}

/// A socket's place on the chip, computed from the partition and the
/// socket's index. It holds no state: all state is in the chip.
#[derive(Clone, Copy, Debug, PartialEq, Eq, Structural)]
pub struct Socket {
    pub register_offset: u16,
    pub tx_addr: u16,
    pub tx_size: u16,
    pub rx_addr: u16,
    pub rx_size: u16,
}

/// A socket register that can be written, with the value to write.
#[derive(Clone, Copy, Debug, PartialEq, Eq, Structural)]
pub enum WriteableSocketRegister {
    /// Socket mode.
    Mr(Mode),
    /// Socket command.
    Cr(Command),
    /// Source port.
    Port(u16),
    /// Transmit write pointer.
    TxWr(u16),
    /// Receive read pointer.
    RxRd(u16),
}

impl WriteableSocketRegister {
    /// The register's address on socket 0.
    pub open spec fn addr(self) -> u16 {
        match self {
            WriteableSocketRegister::Mr(_) => SN_MR,
            WriteableSocketRegister::Cr(_) => SN_CR,
            WriteableSocketRegister::Port(_) => SN_PORT,
            WriteableSocketRegister::TxWr(_) => SN_TX_WR,
            WriteableSocketRegister::RxRd(_) => SN_RX_RD,
        }
    }

    /// The bytes to write.
    pub open spec fn payload(self) -> Payload {
        match self {
            WriteableSocketRegister::Mr(mode) => Payload::One(mode.bits),
            WriteableSocketRegister::Cr(cmd) => Payload::One(cmd.code()),
            WriteableSocketRegister::Port(port) => Payload::of_u16(port),
            WriteableSocketRegister::TxWr(val) => Payload::of_u16(val),
            WriteableSocketRegister::RxRd(val) => Payload::of_u16(val),
        }
    }
}

/// A socket register that is read as one byte.
#[derive(Clone, Copy, Debug, PartialEq, Eq, Structural)]
pub enum ReadableSocketRegisterU8 {
    /// Socket status.
    Sr,
}

/// A socket register that is read as two bytes.
#[derive(Clone, Copy, Debug, PartialEq, Eq, Structural)]
pub enum ReadableSocketRegisterU16 {
    /// Transmit free size.
    TxFsr,
    /// Transmit write pointer.
    TxWr,
    /// Received size.
    RxRsr,
    /// Receive read pointer.
    RxRd,
}

impl ReadableSocketRegisterU16 {
    /// The register's address on socket 0.
    pub open spec fn addr(self) -> u16 {
        match self {
            ReadableSocketRegisterU16::TxFsr => SN_TX_FSR,
            ReadableSocketRegisterU16::TxWr => SN_TX_WR,
            ReadableSocketRegisterU16::RxRsr => SN_RX_RSR,
            ReadableSocketRegisterU16::RxRd => SN_RX_RD,
        }
    }
}

/// How a transfer of `len` bytes lies in a circular buffer of `size`
/// bytes when it starts at `offset`: the length of the part up to the
/// buffer's end, and the length of the part that starts again at the
/// buffer's beginning (zero if the transfer does not wrap).
pub open spec fn split_at_wrap(offset: int, len: int, size: int) -> (int, int) {
    if offset + len > size {
        (size - offset, len - (size - offset))
    } else {
        (len, 0)
    }
}

/// The smaller of a buffer's length and a count that the chip reported.
pub open spec fn bounded(len: usize, reported: u16) -> u16 {
    if len < reported {
        len as u16
    } else {
        reported
    }
}

impl Socket {
    /// The socket `index` under the partition `config`.
    pub open spec fn at(config: SocketConfig, index: SocketIndex) -> Socket {
        Socket {
            register_offset: (index.number() * 256) as u16,
            tx_addr: (index.number() * config.buf_size() + TX_MEMORY) as u16,
            tx_size: config.buf_size() as u16,
            rx_addr: (index.number() * config.buf_size() + RX_MEMORY) as u16,
            rx_size: config.buf_size() as u16,
        }
    }

    /// The socket is one that some partition serves.
    pub open spec fn wf(self) -> bool {
        let i = self.register_offset as int / 256;
        let base = self.tx_addr - TX_MEMORY;
        &&& self.register_offset == i * 256
        &&& self.rx_size == self.tx_size
        &&& self.rx_addr == RX_MEMORY + base
        &&& {
            ||| self.tx_size == 8192 && i == 0 && base == 0
            ||| self.tx_size == 4096 && i < 2 && base == i * 4096
            ||| self.tx_size == 2048 && i < 4 && base == i * 2048
        }
    }

    /// The socket's number.
    pub open spec fn number(self) -> int {
        self.register_offset as int / 256
    }

    /// Computes where the socket `index` lies. The partition must serve
    /// that socket.
    pub fn new(device: &W5100, index: SocketIndex) -> (sock: Socket)
        requires
            index.number() < device.config().sockets(),
        ensures
            sock == Socket::at(device.config(), index),
            sock.wf(),
            sock.tx_addr == TX_MEMORY + index.number() * device.config().buf_size(),
            sock.rx_addr == RX_MEMORY + index.number() * device.config().buf_size(),
            sock.tx_size == device.config().buf_size(),
            sock.rx_size == device.config().buf_size(),
            sock.register_offset == index.number() * 256,
    {
        let index: u16 = index.to_u8() as u16;
        assert(index << 8 == index * 256) by (bit_vector)
            requires
                index < 4,
        ;
        let register_offset: u16 = index << 8;
        let buf_size: u16 = match device.socket_config() {
            SocketConfig::OneSocket8Kib => 8192,
            SocketConfig::TwoSockets4KiB => 4096,
            SocketConfig::FourSockets2KiB => 2048,
        };
        assert(index * buf_size + buf_size <= 8192) by (nonlinear_arith)
            requires
                (index < 1 && buf_size == 8192) || (index < 2 && buf_size == 4096) || (index < 4
                    && buf_size == 2048),
        ;
        Socket {
            register_offset,
            tx_addr: index * buf_size + TX_MEMORY,
            tx_size: buf_size,
            rx_addr: index * buf_size + RX_MEMORY,
            rx_size: buf_size,
        }
    }

    /// The socket's index.
    pub fn index(&self) -> (n: u8)
        ensures
            n == self.number(),
            self.wf() ==> n < 4,
    {
        let off: u16 = self.register_offset;
        assert(off >> 8 == off / 256) by (bit_vector);
        (off >> 8) as u8
    }

    /// Begins to read the socket's status register.
    pub fn status(&self) -> (m: ReadU8)
        requires
            self.wf(),
        ensures
            m == ReadU8::start(SN_SR + self.register_offset),
    {
        self.read_reg_u8(ReadableSocketRegisterU8::Sr)
    }

    /// What a byte read from the status register says.
    pub open spec fn status_of(raw: u8) -> Result<Status, W5100Error> {
        match Status::decode(raw) {
            Some(status) => Ok(status),
            None => Err(W5100Error::UnknownSocketStatus(raw)),
        }
    }

    /// Reads a byte from the status register as a status; a byte that
    /// is none is an error that carries the byte.
    pub fn decode_status(raw: u8) -> (r: Result<Status, W5100Error>)
        ensures
            r == Socket::status_of(raw),
    {
        match Status::from_u8(raw) {
            Some(status) => Ok(status),
            None => Err(W5100Error::UnknownSocketStatus(raw)),
        }
    }

    /// What the read of the status register says once `ev` has answered
    /// it: the transport's failure, the status, or the byte that is none.
    pub open spec fn status_after(rd: ReadU8, ev: Event) -> Result<Status, W5100Error> {
        match rd.outcome(ev) {
            Err(e) => Err(e),
            Ok(raw) => Socket::status_of(raw),
        }
    }

    /// Finishes the read of the status register.
    pub fn finish_status(rd: ReadU8, ev: Event) -> (r: Result<Status, W5100Error>)
        requires
            rd.pending().answered_by(ev),
        ensures
            r == Socket::status_after(rd, ev),
    {
        match rd.finish(ev) {
            Err(e) => Err(e),
            Ok(raw) => Socket::decode_status(raw),
        }
    }

    /// Begins to write the socket's mode register.
    pub fn set_mode(&self, mode: Mode) -> (m: WriteRaw)
        requires
            self.wf(),
        ensures
            m == WriteRaw::start(SN_MR + self.register_offset, Payload::One(mode.bits)),
            m.wf(),
    {
        self.write_reg(WriteableSocketRegister::Mr(mode))
    }

    /// Begins to write the socket's command register.
    pub fn send_command(&self, command: Command) -> (m: WriteRaw)
        requires
            self.wf(),
        ensures
            m == WriteRaw::start(SN_CR + self.register_offset, Payload::One(command.code())),
            m.wf(),
    {
        self.write_reg(WriteableSocketRegister::Cr(command))
    }

    /// Begins to write the socket's source port.
    pub fn set_source_port(&self, port: u16) -> (m: WriteRaw)
        requires
            self.wf(),
        ensures
            m == WriteRaw::start(SN_PORT + self.register_offset, Payload::of_u16(port)),
            m.wf(),
    {
        self.write_reg(WriteableSocketRegister::Port(port))
    }

    /// Begins to write a register of the socket.
    pub fn write_reg(&self, reg: WriteableSocketRegister) -> (m: WriteRaw)
        requires
            self.wf(),
        ensures
            m == WriteRaw::start(reg.addr() + self.register_offset, reg.payload()),
            m.wf(),
    {
        match reg {
            WriteableSocketRegister::Mr(mode) => W5100::write_raw(
                SN_MR + self.register_offset,
                Payload::One(mode.bits()),
            ),
            WriteableSocketRegister::Cr(cmd) => W5100::write_raw(
                SN_CR + self.register_offset,
                Payload::One(cmd.to_u8()),
            ),
            WriteableSocketRegister::Port(port) => W5100::write_raw(
                SN_PORT + self.register_offset,
                Payload::from_u16(port),
            ),
            WriteableSocketRegister::TxWr(val) => W5100::write_raw(
                SN_TX_WR + self.register_offset,
                Payload::from_u16(val),
            ),
            WriteableSocketRegister::RxRd(val) => W5100::write_raw(
                SN_RX_RD + self.register_offset,
                Payload::from_u16(val),
            ),
        }
    }

    /// Begins to read a one-byte register of the socket.
    pub fn read_reg_u8(&self, reg: ReadableSocketRegisterU8) -> (m: ReadU8)
        requires
            self.wf(),
        ensures
            m == ReadU8::start(SN_SR + self.register_offset),
    {
        let mut addr: u16 = match reg {
            ReadableSocketRegisterU8::Sr => SN_SR,
        };
        addr += self.register_offset;
        W5100::read_u8(addr)
    }

    /// Begins to read a two-byte register of the socket.
    pub fn read_reg_u16(&self, reg: ReadableSocketRegisterU16) -> (m: ReadU16)
        requires
            self.wf(),
        ensures
            m == ReadU16::start(reg.addr() + self.register_offset),
            m.wf(),
    {
        let mut addr: u16 = match reg {
            ReadableSocketRegisterU16::TxFsr => SN_TX_FSR,
            ReadableSocketRegisterU16::TxWr => SN_TX_WR,
            ReadableSocketRegisterU16::RxRsr => SN_RX_RSR,
            ReadableSocketRegisterU16::RxRd => SN_RX_RD,
        };
        addr += self.register_offset;
        W5100::read_u16(addr)
    }

    /// How many bytes to move: as many as the buffer takes, and no more
    /// than the chip reported.
    pub fn bound(len: usize, reported: u16) -> (n: u16)
        ensures
            n == bounded(len, reported),
            n <= reported,
            n <= len,
    {
        if len < reported as usize {
            len as u16
        } else {
            reported
        }
    }

    /// Where in a buffer of `size` bytes a pointer of the chip points.
    pub fn offset(pointer: u16, size: u16) -> (offset: u16)
        requires
            size == 2048 || size == 4096 || size == 8192,
        ensures
            offset == pointer % size,
            offset < size,
    {
        assert(pointer & 2047 == pointer % 2048) by (bit_vector);
        assert(pointer & 4095 == pointer % 4096) by (bit_vector);
        assert(pointer & 8191 == pointer % 8192) by (bit_vector);
        pointer & (size - 1)
    }

    /// Splits a transfer of `len` bytes that starts at `offset` of a
    /// circular buffer of `size` bytes where the buffer ends.
    pub fn split(offset: u16, len: u16, size: u16) -> (parts: (u16, u16))
        requires
            offset < size,
            offset + len <= u16::MAX,
        ensures
            (parts.0 as int, parts.1 as int) == split_at_wrap(
                offset as int,
                len as int,
                size as int,
            ),
            parts.0 + parts.1 == len,
            len > 0 ==> parts.0 > 0,
            offset + parts.0 <= size,
    {
        if offset + len > size {
            let to_end: u16 = size - offset;
            (to_end, len - to_end)
        } else {
            (len, 0)
        }
    }
}

/// For every partition, socket 0's transmit memory begins at `0x4000` and
/// its receive memory at `0x6000`; from one socket to the next both move
/// up by the partition's buffer size, and no socket's memory reaches
/// past the 8 KiB that each direction has.
pub proof fn lemma_buffer_bases(config: SocketConfig, index: SocketIndex)
    requires
        index.number() < config.sockets(),
    ensures
        Socket::at(config, SocketIndex::Zero).tx_addr == 0x4000,
        Socket::at(config, SocketIndex::Zero).rx_addr == 0x6000,
        Socket::at(config, index).tx_addr == 0x4000 + index.number() * config.buf_size(),
        Socket::at(config, index).rx_addr == 0x6000 + index.number() * config.buf_size(),
        Socket::at(config, index).tx_addr + config.buf_size() <= 0x6000,
        Socket::at(config, index).rx_addr + config.buf_size() <= 0x8000,
        Socket::at(config, index).tx_size == config.buf_size(),
        Socket::at(config, index).rx_size == config.buf_size(),
{
}

/// A transfer of `len` bytes that starts at `offset` and reaches past
/// the end of a buffer of `size` bytes falls into exactly two parts: one
/// of `size - offset` bytes, which ends where the buffer ends, and one of
/// the remaining `len - (size - offset)` bytes. Both hold at least one
/// byte, and together they hold `len`. A transfer that does not reach
/// past the end is one part.
pub proof fn lemma_split_at_wrap(offset: int, len: int, size: int)
    requires
        0 <= offset < size,
        0 < len,
    ensures
        offset + len > size ==> split_at_wrap(offset, len, size) == (
            size - offset,
            len - (size - offset),
        ),
        offset + len > size ==> split_at_wrap(offset, len, size).0 > 0 && split_at_wrap(
            offset,
            len,
            size,
        ).1 > 0,
        offset + len > size ==> offset + split_at_wrap(offset, len, size).0 == size,
        offset + len <= size ==> split_at_wrap(offset, len, size) == (len, 0int),
        split_at_wrap(offset, len, size).0 + split_at_wrap(offset, len, size).1 == len,
{
}

} // verus!
