use drv_w5100_spi::bus::{Action, BusAction, BusEvent, Event, Poll, SpiError};
use drv_w5100_spi::error::{ClientError, RequestError, W5100Error};
use drv_w5100_spi::server::{Outcome, Response, ServerImpl, TaskId};
use drv_w5100_spi::w5100::reset::{NetworkSetup, Reset};
use drv_w5100_spi::w5100::{NetworkConfig, SocketConfig, W5100};

const S0_MR: usize = 0x0400;
const S0_CR: usize = 0x0401;
const S0_SR: usize = 0x0403;
const S0_TX_FSR: usize = 0x0420;
const S0_TX_WR: usize = 0x0424;
const S0_RX_RSR: usize = 0x0426;
const S0_RX_RD: usize = 0x0428;
const TX_BASE: usize = 0x4000;
const RX_BASE: usize = 0x6000;
const SIZE: usize = 8192;

/// A stand-in for the chip and for the client's buffer.
struct Chip {
    regs: Vec<u8>,
    frames: Vec<[u8; 4]>,
    commands: Vec<u8>,
    sleeps: Vec<u64>,
    reset_reads_busy: usize,
    listen_reads: usize,
    fail_exchange: Option<(usize, u8)>,
    rx_wr: u16,
    rx_rd_seen: u16,
    tx_rd: u16,
    wire: Vec<u8>,
    lease: Vec<u8>,
    lease_gone_after: Option<usize>,
    lease_ops: usize,
    selected: bool,
    selections: usize,
}

impl Chip {
    fn new() -> Chip {
        let mut chip = Chip {
            regs: vec![0; 0x10000],
            frames: Vec::new(),
            commands: Vec::new(),
            sleeps: Vec::new(),
            reset_reads_busy: 0,
            listen_reads: 1,
            fail_exchange: None,
            rx_wr: 0,
            rx_rd_seen: 0,
            tx_rd: 0,
            wire: Vec::new(),
            lease: Vec::new(),
            lease_gone_after: None,
            lease_ops: 0,
            selected: false,
            selections: 0,
        };
        chip.set_u16(S0_TX_FSR, SIZE as u16);
        chip
    }

    fn get_u16(&self, at: usize) -> u16 {
        u16::from_be_bytes([self.regs[at], self.regs[at + 1]])
    }

    fn set_u16(&mut self, at: usize, v: u16) {
        let b = v.to_be_bytes();
        self.regs[at] = b[0];
        self.regs[at + 1] = b[1];
    }

    /// Sets both pointers of the receive buffer, with nothing waiting.
    fn place_rx(&mut self, pointer: u16) {
        self.rx_wr = pointer;
        self.rx_rd_seen = pointer;
        self.set_u16(S0_RX_RD, pointer);
        self.set_u16(S0_RX_RSR, 0);
    }

    /// Sets both pointers of the transmit buffer, with all of it free.
    fn place_tx(&mut self, pointer: u16) {
        self.tx_rd = pointer;
        self.set_u16(S0_TX_WR, pointer);
        self.set_u16(S0_TX_FSR, SIZE as u16);
    }

    /// The peer sends bytes: they land in the receive buffer.
    fn peer_sends(&mut self, data: &[u8]) {
        for &b in data {
            let at = RX_BASE + (self.rx_wr as usize % SIZE);
            self.regs[at] = b;
            self.rx_wr = self.rx_wr.wrapping_add(1);
        }
        let waiting = self.get_u16(S0_RX_RSR) + data.len() as u16;
        self.set_u16(S0_RX_RSR, waiting);
    }

    fn command(&mut self, c: u8) {
        self.commands.push(c);
        match c {
            0x01 => {
                self.regs[S0_SR] = if self.regs[S0_MR] & 0x0f == 0x01 { 0x13 } else { 0x00 };
            }
            0x02 => self.regs[S0_SR] = 0x14,
            0x08 => self.regs[S0_SR] = 0x18,
            0x10 => self.regs[S0_SR] = 0x00,
            0x20 => {
                let end = self.get_u16(S0_TX_WR);
                while self.tx_rd != end {
                    let at = TX_BASE + (self.tx_rd as usize % SIZE);
                    self.wire.push(self.regs[at]);
                    self.tx_rd = self.tx_rd.wrapping_add(1);
                }
            }
            0x40 => {
                let rd = self.get_u16(S0_RX_RD);
                let taken = rd.wrapping_sub(self.rx_rd_seen);
                self.rx_rd_seen = rd;
                let waiting = self.get_u16(S0_RX_RSR) - taken;
                self.set_u16(S0_RX_RSR, waiting);
            }
            _ => {}
        }
    }

    fn exchange(&mut self, frame: [u8; 4]) -> Event {
        let index = self.frames.len();
        self.frames.push(frame);
        if let Some((at, code)) = self.fail_exchange {
            if at == index {
                return Event::TransportFailed(SpiError(code));
            }
        }
        let addr = usize::from(frame[1]) * 256 + usize::from(frame[2]);
        match frame[0] {
            0xf0 => {
                if addr == 0 && frame[3] & 0x80 != 0 {
                    self.regs[0] = if self.reset_reads_busy > 0 { 0x80 } else { 0 };
                } else if addr == S0_CR {
                    self.command(frame[3]);
                } else {
                    self.regs[addr] = frame[3];
                }
                Event::Exchanged(3)
            }
            0x0f => {
                if addr == 0 && self.regs[0] == 0x80 {
                    self.reset_reads_busy -= 1;
                    if self.reset_reads_busy == 0 {
                        self.regs[0] = 0;
                    }
                    return Event::Exchanged(0x80);
                }
                let value = self.regs[addr];
                if addr == S0_SR && value == 0x14 {
                    // a peer connects after so many looks at the status
                    self.listen_reads = self.listen_reads.saturating_sub(1);
                    if self.listen_reads == 0 {
                        self.regs[S0_SR] = 0x17;
                    }
                }
                Event::Exchanged(value)
            }
            other => panic!("no such opcode: {:#x}", other),
        }
    }

    /// One exchange, with chip-select around it.
    fn transact(&mut self, cmd: drv_w5100_spi::w5100::spi_stream::SpiStream) -> Event {
        let mut tx = drv_w5100_spi::w5100::W5100::exchange_raw(&cmd);
        loop {
            let action = tx.action();
            let ev = match action {
                BusAction::Lock => {
                    assert!(!self.selected, "chip-select asserted twice");
                    self.selected = true;
                    self.selections += 1;
                    BusEvent::Locked
                }
                BusAction::Exchange(stream) => {
                    assert!(self.selected, "exchange without chip-select");
                    match self.exchange(stream.as_bytes()) {
                        Event::Exchanged(b) => BusEvent::Exchanged(b),
                        Event::TransportFailed(e) => BusEvent::Failed(e),
                        other => panic!("no outcome of an exchange: {:?}", other),
                    }
                }
                BusAction::Release => {
                    assert!(self.selected, "release without chip-select");
                    self.selected = false;
                    BusEvent::Released
                }
            };
            assert!(action.accepts(&ev));
            match tx.resume(ev) {
                Poll::Pending(next) => tx = next,
                Poll::Ready(out) => {
                    assert!(!self.selected, "chip-select left asserted");
                    return out;
                }
            }
        }
    }

    fn perform(&mut self, action: Action) -> Event {
        assert!(!self.selected, "chip-select asserted between exchanges");
        match action {
            Action::Exchange(cmd) => self.transact(cmd),
            Action::Sleep(ms) => {
                self.sleeps.push(ms);
                Event::Slept
            }
            Action::LeaseRead(i) => {
                self.lease_ops += 1;
                if self.lease_gone_after.map_or(false, |n| self.lease_ops > n) {
                    return Event::LeaseGone;
                }
                match self.lease.get(i) {
                    Some(&b) => Event::LeaseByte(b),
                    None => panic!("read past the client's buffer at {}", i),
                }
            }
            Action::LeaseWrite(i, b) => {
                self.lease_ops += 1;
                if self.lease_gone_after.map_or(false, |n| self.lease_ops > n) {
                    return Event::LeaseGone;
                }
                assert!(i < self.lease.len(), "write past the client's buffer at {}", i);
                self.lease[i] = b;
                Event::LeaseWritten
            }
        }
    }

    /// The frames exchanged from `from` on, as (opcode, address, data).
    fn frames_from(&self, from: usize) -> Vec<(u8, u16, u8)> {
        self.frames[from..]
            .iter()
            .map(|f| (f[0], u16::from_be_bytes([f[1], f[2]]), f[3]))
            .collect()
    }
}

/// Runs a request to its reply.
fn run(server: &mut ServerImpl, chip: &mut Chip, first: Outcome) -> Result<Response, RequestError> {
    let mut outcome = first;
    let mut steps = 0;
    loop {
        match outcome {
            Outcome::Reply(reply) => {
                assert_eq!(server.action(), None);
                return reply;
            }
            Outcome::Perform(action) => {
                assert_eq!(server.action(), Some(action));
                let ev = chip.perform(action);
                assert!(action.accepts(&ev));
                outcome = server.resume(ev);
            }
        }
        steps += 1;
        assert!(steps < 1_000_000, "the request does not end");
    }
}

fn reset(chip: &mut Chip, config: SocketConfig) -> Result<W5100, W5100Error> {
    let mut op: Reset = W5100::reset(config, [0x90, 0xa2, 0xda, 0x00, 0xdc, 0x5f]);
    loop {
        let action = op.action();
        let ev = chip.perform(action);
        assert!(action.accepts(&ev));
        match op.resume(ev) {
            Poll::Pending(next) => op = next,
            Poll::Ready(r) => return r,
        }
    }
}

fn configure(chip: &mut Chip, device: &W5100) -> Result<(), W5100Error> {
    let config = NetworkConfig::Static {
        ip: [192, 168, 1, 239],
        subnet: [255, 255, 255, 0],
        gateway: [192, 168, 1, 1],
    };
    let mut op: NetworkSetup = device.set_network_config(&config);
    loop {
        let action = op.action();
        let ev = chip.perform(action);
        assert!(action.accepts(&ev));
        match op.resume(ev) {
            Poll::Pending(next) => op = next,
            Poll::Ready(r) => return r,
        }
    }
}

fn fresh() -> (ServerImpl, Chip) {
    let mut chip = Chip::new();
    let device = reset(&mut chip, SocketConfig::OneSocket8Kib).unwrap();
    configure(&mut chip, &device).unwrap();
    (ServerImpl::new(device), chip)
}

fn connected(client: TaskId, port: u16) -> (ServerImpl, Chip) {
    let (mut server, mut chip) = fresh();
    let out = server.tcp_open(client, port);
    assert_eq!(run(&mut server, &mut chip, out), Ok(Response::Socket(0)));
    let out = server.tcp_accept(0);
    assert_eq!(run(&mut server, &mut chip, out), Ok(Response::Done));
    (server, chip)
}

fn bad_state(status: u8) -> Result<Response, RequestError> {
    Err(RequestError::Runtime(W5100Error::BadSocketState(status)))
}

#[test]
fn reset_writes_reset_bit_confirms_and_configures() {
    let mut chip = Chip::new();
    let device = reset(&mut chip, SocketConfig::OneSocket8Kib).unwrap();
    assert_eq!(device.socket_config(), SocketConfig::OneSocket8Kib);
    assert_eq!(
        chip.frames_from(0),
        vec![
            (0xf0, 0x0000, 0x80),
            (0x0f, 0x0000, 0x00),
            (0xf0, 0x0000, 0x10),
            (0x0f, 0x0000, 0x00),
            (0xf0, 0x0000, 0x12),
            (0x0f, 0x0000, 0x00),
            (0xf0, 0x0000, 0x00),
            (0x0f, 0x0000, 0x00),
            (0xf0, 0x001a, 0x03),
            (0xf0, 0x001b, 0x03),
            (0xf0, 0x0009, 0x90),
            (0xf0, 0x000a, 0xa2),
            (0xf0, 0x000b, 0xda),
            (0xf0, 0x000c, 0x00),
            (0xf0, 0x000d, 0xdc),
            (0xf0, 0x000e, 0x5f),
        ]
    );
    assert!(chip.sleeps.is_empty());
}

#[test]
fn reset_masks_follow_the_partition() {
    let mut chip = Chip::new();
    reset(&mut chip, SocketConfig::TwoSockets4KiB).unwrap();
    assert_eq!(chip.regs[0x001a], 0x0a);
    assert_eq!(chip.regs[0x001b], 0x0a);
    let mut chip = Chip::new();
    reset(&mut chip, SocketConfig::FourSockets2KiB).unwrap();
    assert_eq!(chip.regs[0x001a], 0x55);
    assert_eq!(chip.regs[0x001b], 0x55);
}

#[test]
fn reset_waits_for_the_mode_register_to_clear() {
    let mut chip = Chip::new();
    chip.reset_reads_busy = 3;
    assert!(reset(&mut chip, SocketConfig::OneSocket8Kib).is_ok());
    assert_eq!(chip.sleeps, vec![1, 1, 1]);
}

#[test]
fn reset_gives_up_after_twenty_reads() {
    let mut chip = Chip::new();
    chip.reset_reads_busy = 1000;
    assert_eq!(reset(&mut chip, SocketConfig::OneSocket8Kib), Err(W5100Error::ResetFailed));
    assert_eq!(chip.frames.len(), 21);
    assert_eq!(chip.sleeps, vec![1; 20]);
}

#[test]
fn reset_succeeds_when_the_twentieth_read_is_clear() {
    let mut chip = Chip::new();
    chip.reset_reads_busy = 19;
    assert!(reset(&mut chip, SocketConfig::OneSocket8Kib).is_ok());
    assert_eq!(chip.sleeps, vec![1; 19]);
}

#[test]
fn reset_fails_when_a_confirmation_does_not_read_back() {
    let mut op = W5100::reset(SocketConfig::OneSocket8Kib, [1, 2, 3, 4, 5, 6]);
    // reset bit written, register reads clear, first value written
    for ev in [Event::Exchanged(0), Event::Exchanged(0), Event::Exchanged(0)] {
        op = match op.resume(ev) {
            Poll::Pending(next) => next,
            Poll::Ready(r) => panic!("ended early: {:?}", r),
        };
    }
    assert_eq!(op.resume(Event::Exchanged(0x11)), Poll::Ready(Err(W5100Error::ResetFailed)));
}

#[test]
fn reset_passes_a_transport_failure_on() {
    let mut chip = Chip::new();
    chip.fail_exchange = Some((5, 4));
    assert_eq!(
        reset(&mut chip, SocketConfig::OneSocket8Kib),
        Err(W5100Error::SpiError(SpiError(4)))
    );
    assert_eq!(chip.frames.len(), 6);
}

#[test]
fn network_config_writes_ip_subnet_gateway() {
    let mut chip = Chip::new();
    let device = reset(&mut chip, SocketConfig::OneSocket8Kib).unwrap();
    let from = chip.frames.len();
    configure(&mut chip, &device).unwrap();
    assert_eq!(
        chip.frames_from(from),
        vec![
            (0xf0, 0x000f, 192),
            (0xf0, 0x0010, 168),
            (0xf0, 0x0011, 1),
            (0xf0, 0x0012, 239),
            (0xf0, 0x0005, 255),
            (0xf0, 0x0006, 255),
            (0xf0, 0x0007, 255),
            (0xf0, 0x0008, 0),
            (0xf0, 0x0001, 192),
            (0xf0, 0x0002, 168),
            (0xf0, 0x0003, 1),
            (0xf0, 0x0004, 1),
        ]
    );
}

#[test]
fn open_sets_tcp_port_and_issues_open() {
    let (mut server, mut chip) = fresh();
    let from = chip.frames.len();
    assert_eq!(server.recv_source(), None);
    let out = server.tcp_open(TaskId(7), 8080);
    assert_eq!(run(&mut server, &mut chip, out), Ok(Response::Socket(0)));
    assert_eq!(
        chip.frames_from(from),
        vec![
            (0xf0, 0x0400, 0x01),
            (0xf0, 0x0404, 0x1f),
            (0xf0, 0x0405, 0x90),
            (0xf0, 0x0401, 0x01),
            (0x0f, 0x0403, 0x00),
        ]
    );
    assert_eq!(server.recv_source(), Some(TaskId(7)));
}

#[test]
fn open_fails_when_the_status_is_not_init() {
    let (mut server, _chip) = fresh();
    let mut out = server.tcp_open(TaskId(1), 80);
    for _ in 0..4 {
        assert!(matches!(out, Outcome::Perform(Action::Exchange(_))));
        out = server.resume(Event::Exchanged(0));
    }
    // the status reads Closed: the socket is closed before the failure
    let close = drv_w5100_spi::w5100::spi_stream::SpiStream::write(0x0401, 0x10);
    assert_eq!(server.resume(Event::Exchanged(0x00)), Outcome::Perform(Action::Exchange(close)));
    assert_eq!(
        server.resume(Event::Exchanged(0)),
        Outcome::Reply(Err(RequestError::Runtime(W5100Error::OpenFailed)))
    );
    assert_eq!(server.recv_source(), None);
    assert_eq!(server.action(), None);
}

#[test]
fn open_that_fails_leaves_the_chip_closed() {
    let (mut server, mut chip) = fresh();
    let mut out = server.tcp_open(TaskId(1), 80);
    let from = chip.commands.len();
    // the chip answers the status read with Listen, whatever it holds
    let mut reads = 0;
    let reply = loop {
        match out {
            Outcome::Reply(r) => break r,
            Outcome::Perform(action) => {
                let mut ev = chip.perform(action);
                if let Action::Exchange(cmd) = action {
                    if cmd.as_bytes() == [0x0f, 0x04, 0x03, 0x00] {
                        reads += 1;
                        ev = Event::Exchanged(0x14);
                    }
                }
                out = server.resume(ev);
            }
        }
    };
    assert_eq!(reply, Err(RequestError::Runtime(W5100Error::OpenFailed)));
    assert_eq!(reads, 1);
    assert_eq!(&chip.commands[from..], &[0x01, 0x10]);
    assert_eq!(chip.regs[S0_SR], 0x00);
    assert_eq!(server.recv_source(), None);
    assert!(matches!(server.tcp_open(TaskId(2), 81), Outcome::Perform(_)));
}

#[test]
fn open_reports_a_status_byte_that_is_none() {
    let (mut server, _chip) = fresh();
    let _ = server.tcp_open(TaskId(1), 80);
    for _ in 0..4 {
        let _ = server.resume(Event::Exchanged(0));
    }
    let close = drv_w5100_spi::w5100::spi_stream::SpiStream::write(0x0401, 0x10);
    assert_eq!(server.resume(Event::Exchanged(0x99)), Outcome::Perform(Action::Exchange(close)));
    assert_eq!(
        server.resume(Event::Exchanged(0)),
        Outcome::Reply(Err(RequestError::Runtime(W5100Error::UnknownSocketStatus(0x99))))
    );
    assert_eq!(server.recv_source(), None);
}

#[test]
fn open_ends_at_once_when_the_status_cannot_be_read() {
    let (mut server, mut chip) = fresh();
    let from = chip.frames.len();
    chip.fail_exchange = Some((from + 4, 2));
    let out = server.tcp_open(TaskId(1), 80);
    assert_eq!(
        run(&mut server, &mut chip, out),
        Err(RequestError::Runtime(W5100Error::SpiError(SpiError(2))))
    );
    assert_eq!(chip.frames.len(), from + 5);
    assert_eq!(server.recv_source(), None);
}

#[test]
fn a_byte_that_is_no_status_closes_the_connection() {
    for write in [false, true] {
        let (mut server, mut chip) = connected(TaskId(7), 8080);
        chip.regs[S0_SR] = 0x99;
        chip.lease = vec![0; 8];
        let from = chip.frames.len();
        let out = if write { server.tcp_write(0, 8) } else { server.tcp_read(0, 8) };
        assert_eq!(
            run(&mut server, &mut chip, out),
            Err(RequestError::Runtime(W5100Error::UnknownSocketStatus(0x99)))
        );
        assert_eq!(chip.frames_from(from), vec![(0x0f, 0x0403, 0x00), (0xf0, 0x0401, 0x10)]);
        assert_eq!(chip.regs[S0_SR], 0x00);
        assert_eq!(server.recv_source(), None);
    }
}

#[test]
fn a_byte_that_is_no_status_ends_listen_and_accept_with_a_close() {
    let close = drv_w5100_spi::w5100::spi_stream::SpiStream::write(0x0401, 0x10);
    // while the listen is confirmed
    let (mut server, mut chip) = fresh();
    let out = server.tcp_open(TaskId(7), 8080);
    run(&mut server, &mut chip, out).unwrap();
    let _ = server.tcp_accept(0);
    let _ = server.resume(Event::Exchanged(0));
    assert_eq!(server.resume(Event::Exchanged(0xfe)), Outcome::Perform(Action::Exchange(close)));
    assert_eq!(
        server.resume(Event::Exchanged(0)),
        Outcome::Reply(Err(RequestError::Runtime(W5100Error::UnknownSocketStatus(0xfe))))
    );
    assert_eq!(server.recv_source(), None);
    // while a peer is waited for
    let (mut server, mut chip) = fresh();
    let out = server.tcp_open(TaskId(7), 8080);
    run(&mut server, &mut chip, out).unwrap();
    let _ = server.tcp_accept(0);
    let _ = server.resume(Event::Exchanged(0));
    let status = drv_w5100_spi::w5100::spi_stream::SpiStream::read(0x0403);
    assert_eq!(server.resume(Event::Exchanged(0x14)), Outcome::Perform(Action::Exchange(status)));
    assert_eq!(server.resume(Event::Exchanged(0x14)), Outcome::Perform(Action::Sleep(100)));
    let _ = server.resume(Event::Slept);
    assert_eq!(server.resume(Event::Exchanged(0x01)), Outcome::Perform(Action::Exchange(close)));
    assert_eq!(
        server.resume(Event::Exchanged(0)),
        Outcome::Reply(Err(RequestError::Runtime(W5100Error::UnknownSocketStatus(0x01))))
    );
    assert_eq!(server.recv_source(), None);
}

#[test]
fn client_death_with_a_failing_bus_still_frees_the_service() {
    let (mut server, mut chip) = connected(TaskId(7), 8080);
    let from = chip.frames.len();
    chip.fail_exchange = Some((from, 2));
    let out = server.closed_recv_fail();
    assert!(run(&mut server, &mut chip, out).is_err());
    assert_eq!(server.recv_source(), None);
    chip.fail_exchange = None;
    let out = server.tcp_open(TaskId(9), 9090);
    assert_eq!(run(&mut server, &mut chip, out), Ok(Response::Socket(0)));
    assert_eq!(server.recv_source(), Some(TaskId(9)));
}

#[test]
fn open_is_refused_while_a_session_is_open() {
    let (mut server, mut chip) = fresh();
    let out = server.tcp_open(TaskId(7), 8080);
    run(&mut server, &mut chip, out).unwrap();
    let from = chip.frames.len();
    assert_eq!(server.tcp_open(TaskId(8), 9090), Outcome::Reply(bad_state(0x13)));
    assert_eq!(chip.frames.len(), from);
    assert_eq!(server.recv_source(), Some(TaskId(7)));
    assert_eq!(server.action(), None);
}

#[test]
fn open_is_refused_while_a_session_is_established() {
    let (mut server, chip) = connected(TaskId(7), 8080);
    let from = chip.frames.len();
    assert_eq!(server.tcp_open(TaskId(8), 9090), Outcome::Reply(bad_state(0x17)));
    assert_eq!(chip.frames.len(), from);
    assert_eq!(server.recv_source(), Some(TaskId(7)));
}

#[test]
fn accept_listens_and_polls_until_established() {
    let (mut server, mut chip) = fresh();
    let out = server.tcp_open(TaskId(7), 8080);
    run(&mut server, &mut chip, out).unwrap();
    chip.listen_reads = 3;
    let from = chip.frames.len();
    let out = server.tcp_accept(0);
    assert_eq!(run(&mut server, &mut chip, out), Ok(Response::Done));
    // one status read confirms the listen, two more find it listening
    assert_eq!(
        chip.frames_from(from),
        vec![
            (0xf0, 0x0401, 0x02),
            (0x0f, 0x0403, 0x00),
            (0x0f, 0x0403, 0x00),
            (0x0f, 0x0403, 0x00),
            (0x0f, 0x0403, 0x00),
        ]
    );
    assert_eq!(chip.sleeps, vec![100, 100]);
    assert_eq!(server.recv_source(), Some(TaskId(7)));
}

#[test]
fn accept_needs_an_open_session() {
    let (mut server, chip) = fresh();
    let from = chip.frames.len();
    assert_eq!(server.tcp_accept(0), Outcome::Reply(bad_state(0x00)));
    assert_eq!(chip.frames.len(), from);
    let (mut server, _chip) = connected(TaskId(7), 8080);
    assert_eq!(server.tcp_accept(0), Outcome::Reply(bad_state(0x17)));
    assert_eq!(server.recv_source(), Some(TaskId(7)));
}

#[test]
fn accept_closes_and_fails_when_the_chip_does_not_listen() {
    let (mut server, mut chip) = fresh();
    let out = server.tcp_open(TaskId(7), 8080);
    run(&mut server, &mut chip, out).unwrap();
    let out = server.tcp_accept(0);
    assert!(matches!(out, Outcome::Perform(Action::Exchange(_))));
    // the Listen command goes through
    let out = server.resume(Event::Exchanged(0));
    assert!(matches!(out, Outcome::Perform(Action::Exchange(_))));
    // but the status still reads Init
    let out = server.resume(Event::Exchanged(0x13));
    let close = drv_w5100_spi::w5100::spi_stream::SpiStream::write(0x0401, 0x10);
    assert_eq!(out, Outcome::Perform(Action::Exchange(close)));
    assert_eq!(
        server.resume(Event::Exchanged(0)),
        Outcome::Reply(Err(RequestError::Runtime(W5100Error::ListenFailed)))
    );
    assert_eq!(server.recv_source(), None);
    // the service takes a new open
    assert!(matches!(server.tcp_open(TaskId(9), 1), Outcome::Perform(_)));
}

#[test]
fn accept_closes_and_fails_on_an_unexpected_status() {
    let (mut server, mut chip) = fresh();
    let out = server.tcp_open(TaskId(7), 8080);
    run(&mut server, &mut chip, out).unwrap();
    let _ = server.tcp_accept(0);
    let _ = server.resume(Event::Exchanged(0));
    let _ = server.resume(Event::Exchanged(0x14));
    // listening confirmed; the next look finds SynRecv
    let out = server.resume(Event::Exchanged(0x16));
    let close = drv_w5100_spi::w5100::spi_stream::SpiStream::write(0x0401, 0x10);
    assert_eq!(out, Outcome::Perform(Action::Exchange(close)));
    assert_eq!(server.resume(Event::Exchanged(0)), Outcome::Reply(bad_state(0x16)));
    assert_eq!(server.recv_source(), None);
}

#[test]
fn read_returns_what_the_peer_sent() {
    let (mut server, mut chip) = connected(TaskId(7), 8080);
    chip.peer_sends(b"hello");
    chip.lease = vec![0; 32];
    let from = chip.frames.len();
    let out = server.tcp_read(0, 32);
    assert_eq!(run(&mut server, &mut chip, out), Ok(Response::Count(5)));
    assert_eq!(&chip.lease[..5], b"hello");
    assert_eq!(
        chip.frames_from(from),
        vec![
            (0x0f, 0x0403, 0x00),
            (0x0f, 0x0426, 0x00),
            (0x0f, 0x0427, 0x00),
            (0x0f, 0x0428, 0x00),
            (0x0f, 0x0429, 0x00),
            (0x0f, 0x6000, 0x00),
            (0x0f, 0x6001, 0x00),
            (0x0f, 0x6002, 0x00),
            (0x0f, 0x6003, 0x00),
            (0x0f, 0x6004, 0x00),
            (0xf0, 0x0428, 0x00),
            (0xf0, 0x0429, 0x05),
            (0xf0, 0x0401, 0x40),
        ]
    );
    assert_eq!(chip.get_u16(S0_RX_RSR), 0);
}

#[test]
fn read_takes_no_more_than_the_buffer_holds() {
    let (mut server, mut chip) = connected(TaskId(7), 8080);
    chip.peer_sends(b"hello, world");
    chip.lease = vec![0; 4];
    let out = server.tcp_read(0, 4);
    assert_eq!(run(&mut server, &mut chip, out), Ok(Response::Count(4)));
    assert_eq!(&chip.lease[..], b"hell");
    assert_eq!(chip.get_u16(S0_RX_RSR), 8);
    chip.lease = vec![0; 32];
    let out = server.tcp_read(0, 32);
    assert_eq!(run(&mut server, &mut chip, out), Ok(Response::Count(8)));
    assert_eq!(&chip.lease[..8], b"o, world");
}

#[test]
fn read_wraps_at_the_end_of_the_buffer() {
    let (mut server, mut chip) = connected(TaskId(7), 8080);
    chip.place_rx(8190);
    chip.peer_sends(b"abcde");
    chip.lease = vec![0; 16];
    let from = chip.frames.len();
    let out = server.tcp_read(0, 16);
    assert_eq!(run(&mut server, &mut chip, out), Ok(Response::Count(5)));
    assert_eq!(&chip.lease[..5], b"abcde");
    let moved: Vec<u16> = chip.frames_from(from)[5..10].iter().map(|f| f.1).collect();
    assert_eq!(moved, vec![0x7ffe, 0x7fff, 0x6000, 0x6001, 0x6002]);
    assert_eq!(chip.get_u16(S0_RX_RD), 8195);
}

#[test]
fn read_pointer_wraps_at_sixteen_bits() {
    let (mut server, mut chip) = connected(TaskId(7), 8080);
    chip.place_rx(0xfffe);
    chip.peer_sends(b"abcde");
    chip.lease = vec![0; 16];
    let out = server.tcp_read(0, 16);
    assert_eq!(run(&mut server, &mut chip, out), Ok(Response::Count(5)));
    assert_eq!(&chip.lease[..5], b"abcde");
    assert_eq!(chip.get_u16(S0_RX_RD), 3);
}

#[test]
fn read_that_ends_at_the_boundary_is_one_part() {
    let (mut server, mut chip) = connected(TaskId(7), 8080);
    chip.place_rx(8188);
    chip.peer_sends(b"wxyz");
    chip.lease = vec![0; 4];
    let from = chip.frames.len();
    let out = server.tcp_read(0, 4);
    assert_eq!(run(&mut server, &mut chip, out), Ok(Response::Count(4)));
    let moved: Vec<u16> = chip.frames_from(from)[5..9].iter().map(|f| f.1).collect();
    assert_eq!(moved, vec![0x7ffc, 0x7ffd, 0x7ffe, 0x7fff]);
    assert_eq!(&chip.lease[..], b"wxyz");
}

#[test]
fn read_sleeps_and_looks_again_while_nothing_waits() {
    let (mut server, _chip) = connected(TaskId(7), 8080);
    let status = drv_w5100_spi::w5100::spi_stream::SpiStream::read(0x0403);
    assert_eq!(server.tcp_read(0, 8), Outcome::Perform(Action::Exchange(status)));
    // established
    let _ = server.resume(Event::Exchanged(0x17));
    // received size reads 0
    let _ = server.resume(Event::Exchanged(0));
    assert_eq!(server.resume(Event::Exchanged(0)), Outcome::Perform(Action::Sleep(10)));
    assert_eq!(server.resume(Event::Slept), Outcome::Perform(Action::Exchange(status)));
}

#[test]
fn tcp_read_at_peer_close_returns_zero() {
    let (mut server, mut chip) = connected(TaskId(7), 8080);
    chip.regs[S0_SR] = 0x1c;
    chip.lease = vec![0; 8];
    let from = chip.frames.len();
    let out = server.tcp_read(0, 8);
    assert_eq!(run(&mut server, &mut chip, out), Ok(Response::Count(0)));
    assert_eq!(chip.frames_from(from), vec![(0x0f, 0x0403, 0x00)]);
    assert_eq!(server.recv_source(), Some(TaskId(7)));
}

#[test]
fn read_closes_and_drops_the_session_on_an_unexpected_status() {
    let (mut server, mut chip) = connected(TaskId(7), 8080);
    chip.regs[S0_SR] = 0x18;
    let from = chip.frames.len();
    let out = server.tcp_read(0, 8);
    assert_eq!(run(&mut server, &mut chip, out), bad_state(0x18));
    assert_eq!(chip.frames_from(from), vec![(0x0f, 0x0403, 0x00), (0xf0, 0x0401, 0x10)]);
    assert_eq!(chip.regs[S0_SR], 0x00);
    assert_eq!(server.recv_source(), None);
}

#[test]
fn read_closes_after_a_transport_failure_while_receiving() {
    let (mut server, mut chip) = connected(TaskId(7), 8080);
    chip.peer_sends(b"hello");
    chip.lease = vec![0; 8];
    let from = chip.frames.len();
    // status, size (2), pointer (2), then the second data byte fails
    chip.fail_exchange = Some((from + 6, 2));
    let out = server.tcp_read(0, 8);
    assert_eq!(
        run(&mut server, &mut chip, out),
        Err(RequestError::Runtime(W5100Error::SpiError(SpiError(2))))
    );
    assert_eq!(chip.frames_from(from).last(), Some(&(0xf0, 0x0401, 0x10)));
    // the pointer was not moved and the chip was not told
    assert_eq!(chip.get_u16(S0_RX_RD), 0);
    assert_eq!(chip.get_u16(S0_RX_RSR), 5);
    assert_eq!(server.recv_source(), None);
}

#[test]
fn read_keeps_the_session_when_the_status_cannot_be_read() {
    let (mut server, mut chip) = connected(TaskId(7), 8080);
    let from = chip.frames.len();
    chip.fail_exchange = Some((from, 1));
    let out = server.tcp_read(0, 8);
    assert_eq!(
        run(&mut server, &mut chip, out),
        Err(RequestError::Runtime(W5100Error::SpiError(SpiError(1))))
    );
    assert_eq!(chip.frames.len(), from + 1);
    assert_eq!(server.recv_source(), Some(TaskId(7)));
}

#[test]
fn read_stops_when_the_client_is_gone() {
    let (mut server, mut chip) = connected(TaskId(7), 8080);
    chip.peer_sends(b"hello");
    chip.lease = vec![0; 8];
    chip.lease_gone_after = Some(2);
    let from = chip.frames.len();
    let out = server.tcp_read(0, 8);
    assert_eq!(run(&mut server, &mut chip, out), Err(RequestError::Fail(ClientError::WentAway)));
    // three bytes were read from the chip; no pointer write, no command
    assert_eq!(chip.frames.len(), from + 5 + 3);
    assert_eq!(chip.commands.last(), Some(&0x02));
    assert_eq!(chip.get_u16(S0_RX_RSR), 5);
    // the session is left for the cleanup
    assert_eq!(server.recv_source(), Some(TaskId(7)));
    let out = server.closed_recv_fail();
    assert_eq!(run(&mut server, &mut chip, out), Ok(Response::Done));
    assert_eq!(&chip.commands[chip.commands.len() - 2..], &[0x08, 0x10]);
    assert_eq!(server.recv_source(), None);
}

#[test]
fn read_and_write_need_an_established_session() {
    let (mut server, mut chip) = fresh();
    assert_eq!(server.tcp_read(0, 8), Outcome::Reply(bad_state(0x00)));
    assert_eq!(server.tcp_write(0, 8), Outcome::Reply(bad_state(0x00)));
    let out = server.tcp_open(TaskId(7), 8080);
    run(&mut server, &mut chip, out).unwrap();
    let from = chip.frames.len();
    assert_eq!(server.tcp_read(0, 8), Outcome::Reply(bad_state(0x13)));
    assert_eq!(server.tcp_write(0, 8), Outcome::Reply(bad_state(0x13)));
    assert_eq!(chip.frames.len(), from);
    assert_eq!(server.recv_source(), Some(TaskId(7)));
}

#[test]
fn other_sockets_than_zero_are_refused() {
    let (mut server, chip) = connected(TaskId(7), 8080);
    let from = chip.frames.len();
    let refused = Outcome::Reply(Err(RequestError::Runtime(W5100Error::BadSocketNumber)));
    for socket in [1u8, 2, 3, 4, 255] {
        assert_eq!(server.tcp_accept(socket), refused);
        assert_eq!(server.tcp_read(socket, 8), refused);
        assert_eq!(server.tcp_write(socket, 8), refused);
        assert_eq!(server.tcp_close(socket), refused);
    }
    assert_eq!(chip.frames.len(), from);
    assert_eq!(server.recv_source(), Some(TaskId(7)));
}

#[test]
fn write_puts_bytes_in_the_buffer_and_sends() {
    let (mut server, mut chip) = connected(TaskId(7), 8080);
    chip.lease = b"hello".to_vec();
    let from = chip.frames.len();
    let out = server.tcp_write(0, 5);
    assert_eq!(run(&mut server, &mut chip, out), Ok(Response::Count(5)));
    assert_eq!(chip.wire, b"hello");
    assert_eq!(
        chip.frames_from(from),
        vec![
            (0x0f, 0x0403, 0x00),
            (0x0f, 0x0420, 0x00),
            (0x0f, 0x0421, 0x00),
            (0x0f, 0x0424, 0x00),
            (0x0f, 0x0425, 0x00),
            (0xf0, 0x4000, b'h'),
            (0xf0, 0x4001, b'e'),
            (0xf0, 0x4002, b'l'),
            (0xf0, 0x4003, b'l'),
            (0xf0, 0x4004, b'o'),
            (0xf0, 0x0424, 0x00),
            (0xf0, 0x0425, 0x05),
            (0xf0, 0x0401, 0x20),
        ]
    );
}

#[test]
fn write_wraps_at_the_end_of_the_buffer() {
    let (mut server, mut chip) = connected(TaskId(7), 8080);
    chip.place_tx(8189);
    chip.lease = b"abcdef".to_vec();
    let from = chip.frames.len();
    let out = server.tcp_write(0, 6);
    assert_eq!(run(&mut server, &mut chip, out), Ok(Response::Count(6)));
    assert_eq!(chip.wire, b"abcdef");
    let moved: Vec<u16> = chip.frames_from(from)[5..11].iter().map(|f| f.1).collect();
    assert_eq!(moved, vec![0x5ffd, 0x5ffe, 0x5fff, 0x4000, 0x4001, 0x4002]);
    assert_eq!(chip.get_u16(S0_TX_WR), 8195);
}

#[test]
fn write_takes_no_more_than_the_chip_has_free() {
    let (mut server, mut chip) = connected(TaskId(7), 8080);
    chip.set_u16(S0_TX_FSR, 3);
    chip.lease = b"abcdef".to_vec();
    let out = server.tcp_write(0, 6);
    assert_eq!(run(&mut server, &mut chip, out), Ok(Response::Count(3)));
    assert_eq!(chip.wire, b"abc");
}

#[test]
fn write_returns_zero_when_nothing_is_free() {
    let (mut server, mut chip) = connected(TaskId(7), 8080);
    chip.set_u16(S0_TX_FSR, 0);
    chip.lease = b"abcdef".to_vec();
    let from = chip.frames.len();
    let out = server.tcp_write(0, 6);
    assert_eq!(run(&mut server, &mut chip, out), Ok(Response::Count(0)));
    assert_eq!(chip.frames.len(), from + 3);
    assert!(chip.wire.is_empty());
}

#[test]
fn write_of_nothing_returns_zero() {
    let (mut server, mut chip) = connected(TaskId(7), 8080);
    let from = chip.frames.len();
    let out = server.tcp_write(0, 0);
    assert_eq!(run(&mut server, &mut chip, out), Ok(Response::Count(0)));
    assert_eq!(chip.frames.len(), from + 3);
}

#[test]
fn write_fails_with_peer_closed_after_closing() {
    let (mut server, mut chip) = connected(TaskId(7), 8080);
    chip.regs[S0_SR] = 0x1c;
    chip.lease = b"abc".to_vec();
    let from = chip.frames.len();
    let out = server.tcp_write(0, 3);
    assert_eq!(
        run(&mut server, &mut chip, out),
        Err(RequestError::Runtime(W5100Error::PeerClosed))
    );
    assert_eq!(chip.frames_from(from), vec![(0x0f, 0x0403, 0x00), (0xf0, 0x0401, 0x10)]);
    assert_eq!(chip.regs[S0_SR], 0x00);
    assert_eq!(server.recv_source(), None);
}

#[test]
fn write_stops_when_the_client_is_gone() {
    let (mut server, mut chip) = connected(TaskId(7), 8080);
    chip.lease = b"abcdef".to_vec();
    chip.lease_gone_after = Some(4);
    let out = server.tcp_write(0, 6);
    assert_eq!(run(&mut server, &mut chip, out), Err(RequestError::Fail(ClientError::WentAway)));
    assert!(chip.wire.is_empty());
    assert_eq!(chip.get_u16(S0_TX_WR), 0);
    assert_eq!(chip.commands.last(), Some(&0x02));
    assert_eq!(server.recv_source(), Some(TaskId(7)));
}

#[test]
fn failure_of_the_close_command_is_what_is_reported() {
    let (mut server, mut chip) = connected(TaskId(7), 8080);
    chip.regs[S0_SR] = 0x1c;
    let from = chip.frames.len();
    chip.fail_exchange = Some((from + 1, 3));
    let out = server.tcp_write(0, 3);
    assert_eq!(
        run(&mut server, &mut chip, out),
        Err(RequestError::Runtime(W5100Error::SpiError(SpiError(3))))
    );
    assert_eq!(server.recv_source(), None);
}

#[test]
fn close_disconnects_then_closes() {
    let (mut server, mut chip) = connected(TaskId(7), 8080);
    let from = chip.frames.len();
    let out = server.tcp_close(0);
    assert_eq!(run(&mut server, &mut chip, out), Ok(Response::Done));
    assert_eq!(chip.frames_from(from), vec![(0xf0, 0x0401, 0x08), (0xf0, 0x0401, 0x10)]);
    assert_eq!(chip.regs[S0_SR], 0x00);
    assert_eq!(server.recv_source(), None);
}

#[test]
fn close_of_an_open_session_only_closes() {
    let (mut server, mut chip) = fresh();
    let out = server.tcp_open(TaskId(7), 8080);
    run(&mut server, &mut chip, out).unwrap();
    let from = chip.frames.len();
    let out = server.tcp_close(0);
    assert_eq!(run(&mut server, &mut chip, out), Ok(Response::Done));
    assert_eq!(chip.frames_from(from), vec![(0xf0, 0x0401, 0x10)]);
    assert_eq!(server.recv_source(), None);
}

#[test]
fn close_without_a_session_does_nothing() {
    let (mut server, chip) = fresh();
    let from = chip.frames.len();
    assert_eq!(server.tcp_close(0), Outcome::Reply(Ok(Response::Done)));
    assert_eq!(server.tcp_close(0), Outcome::Reply(Ok(Response::Done)));
    assert_eq!(server.closed_recv_fail(), Outcome::Reply(Ok(Response::Done)));
    assert_eq!(chip.frames.len(), from);
}

#[test]
fn close_that_cannot_disconnect_leaves_no_session() {
    let (mut server, mut chip) = connected(TaskId(7), 8080);
    let from = chip.frames.len();
    chip.fail_exchange = Some((from, 2));
    let out = server.tcp_close(0);
    assert_eq!(
        run(&mut server, &mut chip, out),
        Err(RequestError::Runtime(W5100Error::SpiError(SpiError(2))))
    );
    assert_eq!(chip.frames.len(), from + 1);
    assert_eq!(server.recv_source(), None);
}

#[test]
fn client_death_closes_and_a_new_client_can_open() {
    let (mut server, mut chip) = connected(TaskId(7), 8080);
    let from = chip.commands.len();
    let out = server.closed_recv_fail();
    assert_eq!(run(&mut server, &mut chip, out), Ok(Response::Done));
    assert_eq!(&chip.commands[from..], &[0x08, 0x10]);
    assert_eq!(chip.regs[S0_SR], 0x00);
    assert_eq!(server.recv_source(), None);
    let out = server.tcp_open(TaskId(9), 9090);
    assert_eq!(run(&mut server, &mut chip, out), Ok(Response::Socket(0)));
    assert_eq!(server.recv_source(), Some(TaskId(9)));
    assert_eq!(chip.get_u16(0x0404), 9090);
}

#[test]
fn open_accept_read_echo_close() {
    let (mut server, mut chip) = fresh();
    let client = TaskId(3);
    let out = server.tcp_open(client, 8080);
    assert_eq!(run(&mut server, &mut chip, out), Ok(Response::Socket(0)));
    assert_eq!(chip.get_u16(0x0404), 8080);
    assert_eq!(chip.regs[S0_SR], 0x13);
    chip.listen_reads = 5;
    let out = server.tcp_accept(0);
    assert_eq!(run(&mut server, &mut chip, out), Ok(Response::Done));
    assert_eq!(chip.regs[S0_SR], 0x17);

    chip.peer_sends(&[1, 2, 3, 4, 5]);
    chip.lease = vec![0; 32];
    let out = server.tcp_read(0, 32);
    assert_eq!(run(&mut server, &mut chip, out), Ok(Response::Count(5)));
    assert_eq!(&chip.lease[..5], &[1, 2, 3, 4, 5]);

    chip.lease.truncate(5);
    let out = server.tcp_write(0, 5);
    assert_eq!(run(&mut server, &mut chip, out), Ok(Response::Count(5)));
    assert_eq!(chip.wire, vec![1, 2, 3, 4, 5]);

    let out = server.tcp_close(0);
    assert_eq!(run(&mut server, &mut chip, out), Ok(Response::Done));
    assert_eq!(chip.regs[S0_SR], 0x00);
    assert_eq!(chip.commands, vec![0x01, 0x02, 0x40, 0x20, 0x08, 0x10]);
    assert_eq!(server.recv_source(), None);
}

#[test]
fn a_full_buffer_is_moved_in_both_directions() {
    let (mut server, mut chip) = connected(TaskId(7), 8080);
    let data: Vec<u8> = (0..8192u32).map(|i| (i * 7 % 251) as u8).collect();
    chip.place_rx(5000);
    chip.peer_sends(&data);
    chip.lease = vec![0; 8192];
    let out = server.tcp_read(0, 8192);
    assert_eq!(run(&mut server, &mut chip, out), Ok(Response::Count(8192)));
    assert_eq!(chip.lease, data);
    chip.place_tx(0xfff0);
    let out = server.tcp_write(0, 8192);
    assert_eq!(run(&mut server, &mut chip, out), Ok(Response::Count(8192)));
    assert_eq!(chip.wire, data);
}

#[test]
fn a_session_moves_only_forward() {
    let (mut server, mut chip) = fresh();
    // closed: nothing but an open is taken
    assert_eq!(server.tcp_accept(0), Outcome::Reply(bad_state(0x00)));
    let out = server.tcp_open(TaskId(7), 8080);
    run(&mut server, &mut chip, out).unwrap();
    // open: it cannot be opened again, nor read
    assert_eq!(server.tcp_open(TaskId(7), 8080), Outcome::Reply(bad_state(0x13)));
    assert_eq!(server.tcp_read(0, 1), Outcome::Reply(bad_state(0x13)));
    let out = server.tcp_accept(0);
    run(&mut server, &mut chip, out).unwrap();
    // established: it cannot be opened or accepted again
    assert_eq!(server.tcp_open(TaskId(7), 8080), Outcome::Reply(bad_state(0x17)));
    assert_eq!(server.tcp_accept(0), Outcome::Reply(bad_state(0x17)));
    assert_eq!(server.recv_source(), Some(TaskId(7)));
    // a fault ends it
    chip.regs[S0_SR] = 0x00;
    let out = server.tcp_write(0, 1);
    assert_eq!(run(&mut server, &mut chip, out), bad_state(0x00));
    assert_eq!(chip.commands.last(), Some(&0x10));
    assert_eq!(server.recv_source(), None);
    assert_eq!(server.tcp_read(0, 1), Outcome::Reply(bad_state(0x00)));
    assert_eq!(server.tcp_accept(0), Outcome::Reply(bad_state(0x00)));
    // and only a new session begins again
    let out = server.tcp_open(TaskId(8), 8081);
    assert_eq!(run(&mut server, &mut chip, out), Ok(Response::Socket(0)));
    assert_eq!(server.recv_source(), Some(TaskId(8)));
}

#[test]
fn chip_select_frames_every_exchange() {
    let (mut server, mut chip) = connected(TaskId(7), 8080);
    assert_eq!(chip.selections, chip.frames.len());
    chip.peer_sends(b"hello");
    chip.lease = vec![0; 8];
    let from = chip.frames.len();
    chip.fail_exchange = Some((from + 6, 2));
    let out = server.tcp_read(0, 8);
    assert!(run(&mut server, &mut chip, out).is_err());
    assert_eq!(chip.selections, chip.frames.len());
    assert!(!chip.selected);
}
