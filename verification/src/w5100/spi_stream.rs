//! The four-byte command stream that carries every register access.

use vstd::prelude::*;

verus! {

/// Opcode byte of a register write.
pub const OP_WRITE: u8 = 0xf0;

/// Opcode byte of a register read.
pub const OP_READ: u8 = 0x0f;

/// One command stream: a one-byte opcode, a two-byte big-endian register
/// address and one data byte. The chip wants chip-select asserted around
/// each such stream and released right after it.
#[derive(Clone, Copy, Debug, PartialEq, Eq, Structural)]
pub struct SpiStream {
    pub opcode: u8,
    pub addr_hi: u8,
    pub addr_lo: u8,
    pub data: u8,
}

/// The stream with the given opcode, register address and data byte.
pub open spec fn stream(opcode: u8, addr: int, data: u8) -> SpiStream {
    SpiStream { opcode, addr_hi: (addr / 256) as u8, addr_lo: (addr % 256) as u8, data }
}

impl SpiStream {
    /// The register address that the stream names.
    pub open spec fn addr(self) -> int {
        self.addr_hi as int * 256 + self.addr_lo as int
    }

    /// The bytes in the order in which they go over the wire.
    pub open spec fn wire(self) -> Seq<u8> {
        seq![self.opcode, self.addr_hi, self.addr_lo, self.data]
    }

    /// Stream that writes `data` to the register at `addr`.
    pub fn write(addr: u16, data: u8) -> (cmd: SpiStream)
        ensures
            cmd == stream(OP_WRITE, addr as int, data),
            cmd.addr() == addr,
    {
        let hi: u8 = (addr >> 8) as u8;
        let lo: u8 = (addr & 0xff) as u8;
        assert(addr >> 8 == addr / 256 && addr & 0xff == addr % 256) by (bit_vector);
        SpiStream { opcode: OP_WRITE, addr_hi: hi, addr_lo: lo, data }
    }

    /// Stream that reads the register at `addr`; its data byte is zero and
    /// the chip ignores it.
    pub fn read(addr: u16) -> (cmd: SpiStream)
        ensures
            cmd == stream(OP_READ, addr as int, 0),
            cmd.addr() == addr,
    {
        let hi: u8 = (addr >> 8) as u8;
        let lo: u8 = (addr & 0xff) as u8;
        assert(addr >> 8 == addr / 256 && addr & 0xff == addr % 256) by (bit_vector);
        SpiStream { opcode: OP_READ, addr_hi: hi, addr_lo: lo, data: 0 }
    }

    /// The four bytes to put on the wire.
    pub fn as_bytes(&self) -> (bytes: [u8; 4])
        ensures
            bytes@ == self.wire(),
    {
        [self.opcode, self.addr_hi, self.addr_lo, self.data]
    }

    /// Replaces the data byte and leaves opcode and address alone.
    pub fn set_data(&mut self, val: u8)
        ensures
            *final(self) == (SpiStream { data: val, ..*old(self) }),
    {
        self.data = val;
    }

    /// Moves on to the next register: adds one to the low address byte and
    /// carries into the high byte. There is no register after `0xffff`.
    pub fn increment_addr(&mut self)
        requires
            old(self).addr() < 0xffff,
        ensures
            *final(self) == stream(old(self).opcode, old(self).addr() + 1, old(self).data),
            final(self).addr() == old(self).addr() + 1,
    {
        self.addr_lo = self.addr_lo.wrapping_add(1);
        if self.addr_lo == 0 {
            self.addr_hi += 1;
        }
    }
}

/// A stream is rebuilt from its own opcode, address and data byte, and the
/// address that a stream is built for is the address that it names.
pub proof fn lemma_stream_addr(opcode: u8, addr: int, data: u8)
    requires
        0 <= addr <= 0xffff,
    ensures
        stream(opcode, addr, data).addr() == addr,
        stream(opcode, addr, data).opcode == opcode,
        stream(opcode, addr, data).data == data,
{
}

} // verus!
