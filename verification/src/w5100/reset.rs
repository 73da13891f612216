//! Bringing the chip up: reset with confirmation, memory partition,
//! hardware address, network addresses.

use vstd::prelude::*;
use crate::bus::{Action, Event, Poll};
use crate::error::W5100Error;
use crate::w5100::{
    lemma_write_raw_step, Mode, NetworkConfig, Payload, ReadU8, ReadableRegisterU8, SocketConfig, WriteRaw,
    WriteableRegister, MODE_ADDRESS_AUTO_INCREMENT, MODE_PING_BLOCK, MODE_RESET, REG_GAR, REG_MR,
    REG_RMSR, REG_SHAR, REG_SIPR, REG_SUBR, REG_TMSR, W5100,
};

verus! {

/// How often the mode register is read while it has not cleared.
pub const RESET_ATTEMPTS: u8 = 20;

/// Milliseconds to sleep between two such reads.
pub const RESET_POLL_MS: u64 = 1;

/// How many mode values are written and read back after the reset.
pub const CONFIRM_ROUNDS: u8 = 3;

/// The mode value of each confirmation round: ping block, ping block
/// with address auto-increment, nothing. The last leaves the register
/// cleared.
pub open spec fn confirm_mode(round: u8) -> u8 {
    if round == 0 {
        0x10
    } else if round == 1 {
        0x12
    } else {
        0x00
    }
}

/// The memory size mask that stands for a partition.
pub open spec fn size_mask(config: SocketConfig) -> u8 {
    match config {
        SocketConfig::OneSocket8Kib => 0x03,
        SocketConfig::TwoSockets4KiB => 0x0a,
        SocketConfig::FourSockets2KiB => 0x55,
    }
}

/// Where a reset stands.
#[derive(Clone, Copy, Debug, PartialEq, Eq, Structural)]
pub enum ResetPhase {
    /// The reset bit is being written.
    Resetting(WriteRaw),
    /// The mode register is being read, for the `attempt`-th time
    /// counting from zero.
    Polling { attempt: u8, rd: ReadU8 },
    /// Sleeping after a read that found the register not yet cleared.
    Napping { attempt: u8 },
    /// A confirmation value is being written.
    ConfirmWrite { round: u8, wr: WriteRaw },
    /// A confirmation value is being read back.
    ConfirmRead { round: u8, rd: ReadU8 },
    /// The receive memory size mask is being written.
    RxMask(WriteRaw),
    /// The transmit memory size mask is being written.
    TxMask(WriteRaw),
    /// The hardware address is being written.
    Mac(WriteRaw),
}

/// A reset in progress.
#[derive(Clone, Copy, Debug, PartialEq, Eq, Structural)]
pub struct Reset {
    pub socket_config: SocketConfig,
    pub mac: Payload,
    pub phase: ResetPhase,
}

impl Reset {
    /// The reset before its first action.
    pub open spec fn start(socket_config: SocketConfig, mac: Payload) -> Reset {
        Reset {
            socket_config,
            mac,
            phase: ResetPhase::Resetting(WriteRaw::start(REG_MR as int, Payload::One(MODE_RESET))),
        }
    }

    /// The reset as it begins to read the mode register for the
    /// `attempt`-th time.
    pub open spec fn polling(self, attempt: u8) -> Reset {
        Reset { phase: ResetPhase::Polling { attempt, rd: ReadU8::start(REG_MR as int) }, ..self }
    }

    /// The reset as it begins confirmation round `round`.
    pub open spec fn confirming(self, round: u8) -> Reset {
        Reset {
            phase: ResetPhase::ConfirmWrite {
                round,
                wr: WriteRaw::start(REG_MR as int, Payload::One(confirm_mode(round))),
            },
            ..self
        }
    }

    /// The reset as it begins to share the chip's memory out.
    pub open spec fn partitioning(self) -> Reset {
        Reset {
            phase: ResetPhase::RxMask(
                WriteRaw::start(REG_RMSR as int, Payload::One(size_mask(self.socket_config))),
            ),
            ..self
        }
    }

    /// What holds of the reset at every step.
    pub open spec fn wf(self) -> bool {
        &&& self.mac is Six
        &&& match self.phase {
            ResetPhase::Resetting(wr) => wr == WriteRaw::start(
                REG_MR as int,
                Payload::One(MODE_RESET),
            ),
            ResetPhase::Polling { attempt, rd } => attempt < RESET_ATTEMPTS && rd == ReadU8::start(
                REG_MR as int,
            ),
            ResetPhase::Napping { attempt } => attempt < RESET_ATTEMPTS,
            ResetPhase::ConfirmWrite { round, wr } => round < CONFIRM_ROUNDS && wr
                == WriteRaw::start(REG_MR as int, Payload::One(confirm_mode(round))),
            ResetPhase::ConfirmRead { round, rd } => round < CONFIRM_ROUNDS && rd == ReadU8::start(
                REG_MR as int,
            ),
            ResetPhase::RxMask(wr) => wr == WriteRaw::start(
                REG_RMSR as int,
                Payload::One(size_mask(self.socket_config)),
            ),
            ResetPhase::TxMask(wr) => wr == WriteRaw::start(
                REG_TMSR as int,
                Payload::One(size_mask(self.socket_config)),
            ),
            ResetPhase::Mac(wr) => wr.wf() && wr.base() == REG_SHAR && wr.data == self.mac,
        }
    }

    /// What the reset is waiting for.
    pub open spec fn pending(self) -> Action {
        match self.phase {
            ResetPhase::Resetting(wr) => wr.pending(),
            ResetPhase::Polling { attempt, rd } => rd.pending(),
            ResetPhase::Napping { attempt } => Action::Sleep(RESET_POLL_MS),
            ResetPhase::ConfirmWrite { round, wr } => wr.pending(),
            ResetPhase::ConfirmRead { round, rd } => rd.pending(),
            ResetPhase::RxMask(wr) => wr.pending(),
            ResetPhase::TxMask(wr) => wr.pending(),
            ResetPhase::Mac(wr) => wr.pending(),
        }
    }

    /// The reset after `ev`.
    ///
    /// The reset bit is written; the mode register is read up to
    /// [`RESET_ATTEMPTS`] times, with a sleep after each read that finds
    /// it not cleared, and the reset fails if it never clears. Then each
    /// confirmation value is written and read back, and the reset fails
    /// on the first that does not read back as written. Then both memory
    /// size masks and the hardware address are written. A transport
    /// failure ends the reset wherever it stands.
    pub open spec fn step(self, ev: Event) -> Poll<Reset, Result<W5100, W5100Error>> {
        match self.phase {
            ResetPhase::Resetting(wr) => match wr.step(ev) {
                Poll::Pending(w) => Poll::Pending(Reset { phase: ResetPhase::Resetting(w), ..self }),
                Poll::Ready(Err(e)) => Poll::Ready(Err(e)),
                Poll::Ready(Ok(())) => Poll::Pending(self.polling(0)),
            },
            ResetPhase::Polling { attempt, rd } => match rd.outcome(ev) {
                Err(e) => Poll::Ready(Err(e)),
                Ok(bits) => if bits == 0 {
                    Poll::Pending(self.confirming(0))
                } else {
                    Poll::Pending(Reset { phase: ResetPhase::Napping { attempt }, ..self })
                },
            },
            ResetPhase::Napping { attempt } => if attempt + 1 < RESET_ATTEMPTS {
                Poll::Pending(self.polling((attempt + 1) as u8))
            } else {
                Poll::Ready(Err(W5100Error::ResetFailed))
            },
            ResetPhase::ConfirmWrite { round, wr } => match wr.step(ev) {
                Poll::Pending(w) => Poll::Pending(
                    Reset { phase: ResetPhase::ConfirmWrite { round, wr: w }, ..self },
                ),
                Poll::Ready(Err(e)) => Poll::Ready(Err(e)),
                Poll::Ready(Ok(())) => Poll::Pending(
                    Reset {
                        phase: ResetPhase::ConfirmRead { round, rd: ReadU8::start(REG_MR as int) },
                        ..self
                    },
                ),
            },
            ResetPhase::ConfirmRead { round, rd } => match rd.outcome(ev) {
                Err(e) => Poll::Ready(Err(e)),
                Ok(bits) => if bits != confirm_mode(round) {
                    Poll::Ready(Err(W5100Error::ResetFailed))
                } else if round + 1 < CONFIRM_ROUNDS {
                    Poll::Pending(self.confirming((round + 1) as u8))
                } else {
                    Poll::Pending(self.partitioning())
                },
            },
            ResetPhase::RxMask(wr) => match wr.step(ev) {
                Poll::Pending(w) => Poll::Pending(Reset { phase: ResetPhase::RxMask(w), ..self }),
                Poll::Ready(Err(e)) => Poll::Ready(Err(e)),
                Poll::Ready(Ok(())) => Poll::Pending(
                    Reset {
                        phase: ResetPhase::TxMask(
                            WriteRaw::start(
                                REG_TMSR as int,
                                Payload::One(size_mask(self.socket_config)),
                            ),
                        ),
                        ..self
                    },
                ),
            },
            ResetPhase::TxMask(wr) => match wr.step(ev) {
                Poll::Pending(w) => Poll::Pending(Reset { phase: ResetPhase::TxMask(w), ..self }),
                Poll::Ready(Err(e)) => Poll::Ready(Err(e)),
                Poll::Ready(Ok(())) => Poll::Pending(
                    Reset {
                        phase: ResetPhase::Mac(WriteRaw::start(REG_SHAR as int, self.mac)),
                        ..self
                    },
                ),
            },
            ResetPhase::Mac(wr) => match wr.step(ev) {
                Poll::Pending(w) => Poll::Pending(Reset { phase: ResetPhase::Mac(w), ..self }),
                Poll::Ready(Err(e)) => Poll::Ready(Err(e)),
                Poll::Ready(Ok(())) => Poll::Ready(Ok(W5100::with(self.socket_config))),
            },
        }
    }

    /// What the reset is waiting for: the action to perform next.
    pub fn action(&self) -> (a: Action)
        ensures
            a == self.pending(),
    {
        match self.phase {
            ResetPhase::Resetting(wr) => wr.action(),
            ResetPhase::Polling { attempt: _, rd } => rd.action(),
            ResetPhase::Napping { attempt: _ } => Action::Sleep(RESET_POLL_MS),
            ResetPhase::ConfirmWrite { round: _, wr } => wr.action(),
            ResetPhase::ConfirmRead { round: _, rd } => rd.action(),
            ResetPhase::RxMask(wr) => wr.action(),
            ResetPhase::TxMask(wr) => wr.action(),
            ResetPhase::Mac(wr) => wr.action(),
        }
    }

    /// Enters the wait for the mode register to clear, at `attempt`.
    fn reset_raw(self, attempt: u8) -> (m: Reset)
        requires
            self.wf(),
            attempt < RESET_ATTEMPTS,
        ensures
            m == self.polling(attempt),
            m.wf(),
    {
        Reset {
            socket_config: self.socket_config,
            mac: self.mac,
            phase: ResetPhase::Polling { attempt, rd: W5100::read_reg_u8(ReadableRegisterU8::Mr) },
        }
    }

    /// Enters confirmation round `round`: the write of its mode value.
    fn confirm_reset(self, round: u8) -> (m: Reset)
        requires
            self.wf(),
            round < CONFIRM_ROUNDS,
        ensures
            m == self.confirming(round),
            m.wf(),
    {
        let mode = if round == 0 {
            Mode::ping_block()
        } else if round == 1 {
            assert(0x10u8 | 0x02u8 == 0x12u8) by (bit_vector);
            Mode::ping_block().union(Mode::address_auto_increment())
        } else {
            Mode::empty()
        };
        Reset {
            socket_config: self.socket_config,
            mac: self.mac,
            phase: ResetPhase::ConfirmWrite {
                round,
                wr: W5100::write_reg(WriteableRegister::Mr(mode)),
            },
        }
    }

    /// Enters the partition of the chip's memory: the write of the
    /// receive mask.
    fn configure_socket_buffers(self) -> (m: Reset)
        requires
            self.wf(),
        ensures
            m == self.partitioning(),
            m.wf(),
    {
        Reset {
            socket_config: self.socket_config,
            mac: self.mac,
            phase: ResetPhase::RxMask(
                W5100::write_reg(WriteableRegister::Rmsr(mask_of(self.socket_config))),
            ),
        }
    }

    /// Enters the write of the hardware address.
    fn configure_mac_address(self) -> (m: Reset)
        requires
            self.wf(),
        ensures
            m == (Reset {
                phase: ResetPhase::Mac(WriteRaw::start(REG_SHAR as int, self.mac)),
                ..self
            }),
            m.wf(),
    {
        Reset {
            socket_config: self.socket_config,
            mac: self.mac,
            phase: ResetPhase::Mac(W5100::write_raw(REG_SHAR, self.mac)),
        }
    }

    /// Takes what came of the awaited action and goes on.
    pub fn resume(self, ev: Event) -> (r: Poll<Reset, Result<W5100, W5100Error>>)
        requires
            self.wf(),
            self.pending().answered_by(ev),
        ensures
            r == self.step(ev),
            r matches Poll::Pending(m) ==> m.wf(),
    {
        let socket_config = self.socket_config;
        let mac = self.mac;
        match self.phase {
            ResetPhase::Resetting(wr) => match wr.resume(ev) {
                Poll::Pending(w) => Poll::Pending(
                    Reset { socket_config, mac, phase: ResetPhase::Resetting(w) },
                ),
                Poll::Ready(Err(e)) => Poll::Ready(Err(e)),
                Poll::Ready(Ok(())) => Poll::Pending(self.reset_raw(0)),
            },
            ResetPhase::Polling { attempt, rd } => match rd.finish(ev) {
                Err(e) => Poll::Ready(Err(e)),
                Ok(bits) => if bits == Mode::empty().bits() {
                    Poll::Pending(self.confirm_reset(0))
                } else {
                    Poll::Pending(Reset { socket_config, mac, phase: ResetPhase::Napping { attempt } })
                },
            },
            ResetPhase::Napping { attempt } => if attempt + 1 < RESET_ATTEMPTS {
                Poll::Pending(self.reset_raw(attempt + 1))
            } else {
                Poll::Ready(Err(W5100Error::ResetFailed))
            },
            ResetPhase::ConfirmWrite { round, wr } => match wr.resume(ev) {
                Poll::Pending(w) => Poll::Pending(
                    Reset { socket_config, mac, phase: ResetPhase::ConfirmWrite { round, wr: w } },
                ),
                Poll::Ready(Err(e)) => Poll::Ready(Err(e)),
                Poll::Ready(Ok(())) => Poll::Pending(
                    Reset {
                        socket_config,
                        mac,
                        phase: ResetPhase::ConfirmRead {
                            round,
                            rd: W5100::read_reg_u8(ReadableRegisterU8::Mr),
                        },
                    },
                ),
            },
            ResetPhase::ConfirmRead { round, rd } => match rd.finish(ev) {
                Err(e) => Poll::Ready(Err(e)),
                Ok(bits) => if bits != confirm_bits(round) {
                    Poll::Ready(Err(W5100Error::ResetFailed))
                } else if round + 1 < CONFIRM_ROUNDS {
                    Poll::Pending(self.confirm_reset(round + 1))
                } else {
                    Poll::Pending(self.configure_socket_buffers())
                },
            },
            ResetPhase::RxMask(wr) => match wr.resume(ev) {
                Poll::Pending(w) => Poll::Pending(
                    Reset { socket_config, mac, phase: ResetPhase::RxMask(w) },
                ),
                Poll::Ready(Err(e)) => Poll::Ready(Err(e)),
                Poll::Ready(Ok(())) => Poll::Pending(
                    Reset {
                        socket_config,
                        mac,
                        phase: ResetPhase::TxMask(
                            W5100::write_reg(WriteableRegister::Tmsr(mask_of(socket_config))),
                        ),
                    },
                ),
            },
            ResetPhase::TxMask(wr) => match wr.resume(ev) {
                Poll::Pending(w) => Poll::Pending(
                    Reset { socket_config, mac, phase: ResetPhase::TxMask(w) },
                ),
                Poll::Ready(Err(e)) => Poll::Ready(Err(e)),
                Poll::Ready(Ok(())) => Poll::Pending(self.configure_mac_address()),
            },
            ResetPhase::Mac(wr) => match wr.resume(ev) {
                Poll::Pending(w) => Poll::Pending(Reset { socket_config, mac, phase: ResetPhase::Mac(w) }),
                Poll::Ready(Err(e)) => Poll::Ready(Err(e)),
                Poll::Ready(Ok(())) => Poll::Ready(Ok(W5100::after_reset(socket_config))),
            },
        }
    }
}

/// The mode value that confirmation round `round` writes and expects.
fn confirm_bits(round: u8) -> (bits: u8)
    ensures
        bits == confirm_mode(round),
{
    if round == 0 {
        MODE_PING_BLOCK
    } else if round == 1 {
        assert(0x10u8 | 0x02u8 == 0x12u8) by (bit_vector);
        MODE_PING_BLOCK | MODE_ADDRESS_AUTO_INCREMENT
    } else {
        0
    }
}

/// The memory size mask for a partition.
fn mask_of(config: SocketConfig) -> (mask: u8)
    ensures
        mask == size_mask(config),
{
    match config {
        SocketConfig::OneSocket8Kib => 0x03,
        SocketConfig::TwoSockets4KiB => 0x0a,
        SocketConfig::FourSockets2KiB => 0x55,
    }
}

/// Where the writing of the network addresses stands.
#[derive(Clone, Copy, Debug, PartialEq, Eq, Structural)]
pub enum NetworkPhase {
    /// The chip's own address is being written.
    Ip(WriteRaw),
    /// The subnet mask is being written.
    Subnet(WriteRaw),
    /// The gateway's address is being written.
    Gateway(WriteRaw),
}

/// The writing of the network addresses, in progress.
#[derive(Clone, Copy, Debug, PartialEq, Eq, Structural)]
pub struct NetworkSetup {
    pub subnet: Payload,
    pub gateway: Payload,
    pub phase: NetworkPhase,
}

impl NetworkSetup {
    /// The setup before its first action.
    pub open spec fn start(ip: Payload, subnet: Payload, gateway: Payload) -> NetworkSetup {
        NetworkSetup {
            subnet,
            gateway,
            phase: NetworkPhase::Ip(WriteRaw::start(REG_SIPR as int, ip)),
        }
    }

    /// What holds of the setup at every step.
    pub open spec fn wf(self) -> bool {
        &&& self.subnet is Four
        &&& self.gateway is Four
        &&& match self.phase {
            NetworkPhase::Ip(wr) => wr.wf() && wr.base() == REG_SIPR && wr.data is Four,
            NetworkPhase::Subnet(wr) => wr.wf() && wr.base() == REG_SUBR && wr.data == self.subnet,
            NetworkPhase::Gateway(wr) => wr.wf() && wr.base() == REG_GAR && wr.data
                == self.gateway,
        }
    }

    /// What the setup is waiting for.
    pub open spec fn pending(self) -> Action {
        match self.phase {
            NetworkPhase::Ip(wr) => wr.pending(),
            NetworkPhase::Subnet(wr) => wr.pending(),
            NetworkPhase::Gateway(wr) => wr.pending(),
        }
    }

    /// The setup after `ev`: own address, subnet mask and gateway are
    /// written in this order; a transport failure ends it.
    pub open spec fn step(self, ev: Event) -> Poll<NetworkSetup, Result<(), W5100Error>> {
        match self.phase {
            NetworkPhase::Ip(wr) => match wr.step(ev) {
                Poll::Pending(w) => Poll::Pending(NetworkSetup { phase: NetworkPhase::Ip(w), ..self }),
                Poll::Ready(Err(e)) => Poll::Ready(Err(e)),
                Poll::Ready(Ok(())) => Poll::Pending(
                    NetworkSetup {
                        phase: NetworkPhase::Subnet(WriteRaw::start(REG_SUBR as int, self.subnet)),
                        ..self
                    },
                ),
            },
            NetworkPhase::Subnet(wr) => match wr.step(ev) {
                Poll::Pending(w) => Poll::Pending(
                    NetworkSetup { phase: NetworkPhase::Subnet(w), ..self },
                ),
                Poll::Ready(Err(e)) => Poll::Ready(Err(e)),
                Poll::Ready(Ok(())) => Poll::Pending(
                    NetworkSetup {
                        phase: NetworkPhase::Gateway(WriteRaw::start(REG_GAR as int, self.gateway)),
                        ..self
                    },
                ),
            },
            NetworkPhase::Gateway(wr) => match wr.step(ev) {
                Poll::Pending(w) => Poll::Pending(
                    NetworkSetup { phase: NetworkPhase::Gateway(w), ..self },
                ),
                Poll::Ready(r) => Poll::Ready(r),
            },
        }
    }

    /// What the setup is waiting for: the action to perform next.
    pub fn action(&self) -> (a: Action)
        ensures
            a == self.pending(),
    {
        match self.phase {
            NetworkPhase::Ip(wr) => wr.action(),
            NetworkPhase::Subnet(wr) => wr.action(),
            NetworkPhase::Gateway(wr) => wr.action(),
        }
    }

    /// Takes what came of the awaited action and goes on.
    pub fn resume(self, ev: Event) -> (r: Poll<NetworkSetup, Result<(), W5100Error>>)
        requires
            self.wf(),
            self.pending().answered_by(ev),
        ensures
            r == self.step(ev),
            r matches Poll::Pending(m) ==> m.wf(),
    {
        let subnet = self.subnet;
        let gateway = self.gateway;
        match self.phase {
            NetworkPhase::Ip(wr) => match wr.resume(ev) {
                Poll::Pending(w) => Poll::Pending(
                    NetworkSetup { subnet, gateway, phase: NetworkPhase::Ip(w) },
                ),
                Poll::Ready(Err(e)) => Poll::Ready(Err(e)),
                Poll::Ready(Ok(())) => Poll::Pending(
                    NetworkSetup {
                        subnet,
                        gateway,
                        phase: NetworkPhase::Subnet(W5100::write_raw(REG_SUBR, subnet)),
                    },
                ),
            },
            NetworkPhase::Subnet(wr) => match wr.resume(ev) {
                Poll::Pending(w) => Poll::Pending(
                    NetworkSetup { subnet, gateway, phase: NetworkPhase::Subnet(w) },
                ),
                Poll::Ready(Err(e)) => Poll::Ready(Err(e)),
                Poll::Ready(Ok(())) => Poll::Pending(
                    NetworkSetup {
                        subnet,
                        gateway,
                        phase: NetworkPhase::Gateway(W5100::write_raw(REG_GAR, gateway)),
                    },
                ),
            },
            NetworkPhase::Gateway(wr) => match wr.resume(ev) {
                Poll::Pending(w) => Poll::Pending(
                    NetworkSetup { subnet, gateway, phase: NetworkPhase::Gateway(w) },
                ),
                Poll::Ready(r) => Poll::Ready(r),
            },
        }
    }
}

impl W5100 {
    /// Begins to reset the chip, to share its memory out as
    /// `socket_config` says and to give it the hardware address `mac`.
    /// The finished reset yields the chip's handle.
    pub fn reset(socket_config: SocketConfig, mac: [u8; 6]) -> (m: Reset)
        ensures
            m == Reset::start(socket_config, Payload::of_6(mac)),
            m.wf(),
    {
        Reset {
            socket_config,
            mac: Payload::from_6(mac),
            phase: ResetPhase::Resetting(W5100::write_reg(WriteableRegister::Mr(Mode::reset()))),
        }
    }

    /// Begins to write the chip's network addresses.
    pub fn set_network_config(&self, network_config: &NetworkConfig) -> (m: NetworkSetup)
        ensures
            network_config matches NetworkConfig::Static { ip, subnet, gateway } ==> m
                == NetworkSetup::start(
                Payload::of_4(*ip),
                Payload::of_4(*subnet),
                Payload::of_4(*gateway),
            ),
            m.wf(),
    {
        match network_config {
            NetworkConfig::Static { ip, subnet, gateway } => NetworkSetup {
                subnet: Payload::from_4(*subnet),
                gateway: Payload::from_4(*gateway),
                phase: NetworkPhase::Ip(W5100::write_reg(WriteableRegister::Sipr(*ip))),
            },
        }
    }
}

/// A reset in progress stays well formed, and keeps its partition and its
/// hardware address. It yields the chip's handle only after the last
/// byte of the hardware address has been written, and the handle says
/// the partition that the reset was begun with. It gives up if and only
/// if the sleep after the last allowed read of the mode register is
/// over, or a confirmation value did not read back as written.
pub proof fn lemma_reset_step(m: Reset, ev: Event)
    requires
        m.wf(),
        m.pending().answered_by(ev),
    ensures
        m.step(ev) matches Poll::Pending(n) ==> n.wf() && n.socket_config == m.socket_config
            && n.mac == m.mac,
        m.step(ev) matches Poll::Ready(Ok(device)) ==> m.phase is Mac && device == W5100::with(
            m.socket_config,
        ),
        m.step(ev) == Poll::<Reset, Result<W5100, W5100Error>>::Ready(
            Err(W5100Error::ResetFailed),
        ) <==> {
            ||| m.phase matches ResetPhase::Napping { attempt } && attempt + 1 == RESET_ATTEMPTS
            ||| m.phase matches ResetPhase::ConfirmRead { round, rd } && (ev matches Event::Exchanged(
                bits,
            ) && bits != confirm_mode(round))
        },
        m.phase matches ResetPhase::Polling { attempt, rd } ==> (m.step(ev) == Poll::<
            Reset,
            Result<W5100, W5100Error>,
        >::Pending(m.confirming(0)) <==> ev == Event::Exchanged(0)),
{
    match m.phase {
        ResetPhase::Resetting(wr) => lemma_write_raw_step(wr, ev),
        ResetPhase::Polling { attempt, rd } => {},
        ResetPhase::Napping { attempt } => {},
        ResetPhase::ConfirmWrite { round, wr } => lemma_write_raw_step(wr, ev),
        ResetPhase::ConfirmRead { round, rd } => {},
        ResetPhase::RxMask(wr) => lemma_write_raw_step(wr, ev),
        ResetPhase::TxMask(wr) => lemma_write_raw_step(wr, ev),
        ResetPhase::Mac(wr) => lemma_write_raw_step(wr, ev),
    }
}

/// The writing of the network addresses stays well formed and keeps the
/// addresses still to be written; it ends in failure only when the
/// transport fails.
pub proof fn lemma_network_setup_step(m: NetworkSetup, ev: Event)
    requires
        m.wf(),
        m.pending().answered_by(ev),
    ensures
        m.step(ev) matches Poll::Pending(n) ==> n.wf() && n.subnet == m.subnet && n.gateway
            == m.gateway,
        m.step(ev) matches Poll::Ready(Ok(())) ==> m.phase is Gateway,
        m.step(ev) matches Poll::Ready(Err(e)) ==> ev matches Event::TransportFailed(t) && e
            == W5100Error::SpiError(t),
{
    match m.phase {
        NetworkPhase::Ip(wr) => lemma_write_raw_step(wr, ev),
        NetworkPhase::Subnet(wr) => lemma_write_raw_step(wr, ev),
        NetworkPhase::Gateway(wr) => lemma_write_raw_step(wr, ev),
    }
}

} // verus!
