use drv_w5100_spi::bus::{Action, Event, Poll};
use drv_w5100_spi::error::W5100Error;
use drv_w5100_spi::w5100::reset::Reset;
use drv_w5100_spi::w5100::socket::{
    Command, Mode, ReadableSocketRegisterU16, Socket, SocketIndex, Status,
    WriteableSocketRegister,
};
use drv_w5100_spi::w5100::spi_stream::SpiStream;
use drv_w5100_spi::w5100::{SocketConfig, W5100};

/// Resets a chip that answers as a sound one does.
fn device(config: SocketConfig) -> W5100 {
    let mut op: Reset = W5100::reset(config, [2, 0, 0, 0, 0, 1]);
    let mut register = 0u8;
    loop {
        let ev = match op.action() {
            Action::Exchange(cmd) => {
                let bytes = cmd.as_bytes();
                if bytes[0] == 0xf0 {
                    if bytes[1] == 0 && bytes[2] == 0 {
                        register = bytes[3] & 0x7f;
                    }
                    Event::Exchanged(0)
                } else {
                    Event::Exchanged(register)
                }
            }
            other => panic!("unexpected: {:?}", other),
        };
        match op.resume(ev) {
            Poll::Pending(next) => op = next,
            Poll::Ready(r) => return r.unwrap(),
        }
    }
}

fn all_indices() -> [SocketIndex; 4] {
    [SocketIndex::Zero, SocketIndex::One, SocketIndex::Two, SocketIndex::Three]
}

#[test]
fn socket_zero_begins_at_the_memory_bases() {
    for config in [
        SocketConfig::OneSocket8Kib,
        SocketConfig::TwoSockets4KiB,
        SocketConfig::FourSockets2KiB,
    ] {
        let sock = Socket::new(&device(config), SocketIndex::Zero);
        assert_eq!(sock.tx_addr, 0x4000);
        assert_eq!(sock.rx_addr, 0x6000);
        assert_eq!(sock.register_offset, 0);
        assert_eq!(sock.index(), 0);
    }
}

#[test]
fn bases_rise_by_the_buffer_size() {
    let four = device(SocketConfig::FourSockets2KiB);
    for (i, index) in all_indices().into_iter().enumerate() {
        assert!(four.socket_config().serves(index));
        let sock = Socket::new(&four, index);
        assert_eq!(sock.tx_size, 2048);
        assert_eq!(sock.rx_size, 2048);
        assert_eq!(usize::from(sock.tx_addr), 0x4000 + i * 2048);
        assert_eq!(usize::from(sock.rx_addr), 0x6000 + i * 2048);
        assert_eq!(usize::from(sock.register_offset), i << 8);
        assert_eq!(usize::from(sock.index()), i);
    }
    let two = device(SocketConfig::TwoSockets4KiB);
    let sock = Socket::new(&two, SocketIndex::One);
    assert_eq!((sock.tx_addr, sock.tx_size), (0x5000, 4096));
    assert_eq!((sock.rx_addr, sock.rx_size), (0x7000, 4096));
    let one = device(SocketConfig::OneSocket8Kib);
    let sock = Socket::new(&one, SocketIndex::Zero);
    assert_eq!((sock.tx_addr, sock.tx_size), (0x4000, 8192));
    assert_eq!((sock.rx_addr, sock.rx_size), (0x6000, 8192));
}

#[test]
fn a_partition_serves_only_its_sockets() {
    let idx = all_indices();
    let one = SocketConfig::OneSocket8Kib;
    let two = SocketConfig::TwoSockets4KiB;
    let four = SocketConfig::FourSockets2KiB;
    assert_eq!(idx.map(|i| one.serves(i)), [true, false, false, false]);
    assert_eq!(idx.map(|i| two.serves(i)), [true, true, false, false]);
    assert_eq!(idx.map(|i| four.serves(i)), [true, true, true, true]);
}

#[test]
fn socket_index_converts_both_ways() {
    for (n, index) in all_indices().into_iter().enumerate() {
        assert_eq!(usize::from(u8::from(index)), n);
        assert_eq!(SocketIndex::from_u8(n as u8), Some(index));
    }
    assert_eq!(SocketIndex::from_u8(4), None);
    assert_eq!(SocketIndex::from_u8(255), None);
}

#[test]
fn wrapping_transfer_splits_at_the_boundary() {
    assert_eq!(Socket::split(8190, 5, 8192), (2, 3));
    assert_eq!(Socket::split(2047, 2, 2048), (1, 1));
    assert_eq!(Socket::split(1, 8192, 8192), (8191, 1));
    assert_eq!(Socket::split(4095, 4096, 4096), (1, 4095));
}

#[test]
fn transfer_that_fits_is_one_part() {
    assert_eq!(Socket::split(0, 5, 8192), (5, 0));
    assert_eq!(Socket::split(8188, 4, 8192), (4, 0));
    assert_eq!(Socket::split(0, 8192, 8192), (8192, 0));
    assert_eq!(Socket::split(100, 0, 2048), (0, 0));
}

#[test]
fn offset_is_the_pointer_modulo_the_size() {
    assert_eq!(Socket::offset(0, 8192), 0);
    assert_eq!(Socket::offset(8191, 8192), 8191);
    assert_eq!(Socket::offset(8192, 8192), 0);
    assert_eq!(Socket::offset(0xffff, 8192), 8191);
    assert_eq!(Socket::offset(0xffff, 4096), 4095);
    assert_eq!(Socket::offset(5000, 2048), 904);
}

#[test]
fn bound_is_the_smaller_of_buffer_and_report() {
    assert_eq!(Socket::bound(0, 100), 0);
    assert_eq!(Socket::bound(32, 0), 0);
    assert_eq!(Socket::bound(32, 5), 5);
    assert_eq!(Socket::bound(4, 5), 4);
    assert_eq!(Socket::bound(8192, 0xffff), 8192);
    assert_eq!(Socket::bound(usize::MAX, 0xffff), 0xffff);
}

#[test]
fn status_bytes_decode() {
    let table = [
        (0x00, Status::Closed),
        (0x13, Status::Init),
        (0x14, Status::Listen),
        (0x17, Status::Established),
        (0x1c, Status::CloseWait),
        (0x22, Status::Udp),
        (0x32, Status::IpRaw),
        (0x42, Status::MacRaw),
        (0x5f, Status::Pppoe),
        (0x15, Status::SynSent),
        (0x16, Status::SynRecv),
        (0x18, Status::FinWait),
        (0x1a, Status::Closing),
        (0x1b, Status::TimeWait),
        (0x1d, Status::LastAck),
        (0x11, Status::ArpTcp),
        (0x21, Status::ArpUdp),
        (0x31, Status::ArpIcmp),
    ];
    for (raw, status) in table {
        assert_eq!(Status::from_u8(raw), Some(status));
        assert_eq!(status.to_u8(), raw);
        assert_eq!(Socket::decode_status(raw), Ok(status));
    }
    let known: Vec<u8> = table.iter().map(|t| t.0).collect();
    for raw in 0..=255u8 {
        if !known.contains(&raw) {
            assert_eq!(Status::from_u8(raw), None);
            assert_eq!(Socket::decode_status(raw), Err(W5100Error::UnknownSocketStatus(raw)));
        }
    }
}

#[test]
fn command_bytes() {
    assert_eq!(Command::Open.to_u8(), 0x01);
    assert_eq!(Command::Listen.to_u8(), 0x02);
    assert_eq!(Command::Connect.to_u8(), 0x04);
    assert_eq!(Command::Disconnect.to_u8(), 0x08);
    assert_eq!(Command::Close.to_u8(), 0x10);
    assert_eq!(Command::Send.to_u8(), 0x20);
    assert_eq!(Command::SendMac.to_u8(), 0x21);
    assert_eq!(Command::SendKeep.to_u8(), 0x22);
    assert_eq!(Command::Recv.to_u8(), 0x40);
}

#[test]
fn socket_registers_lie_at_their_offsets() {
    let four = device(SocketConfig::FourSockets2KiB);
    let sock = Socket::new(&four, SocketIndex::Two);
    assert_eq!(sock.status().action(), Action::Exchange(SpiStream::read(0x0603)));
    assert_eq!(
        sock.set_mode(Mode::proto_tcp()).action(),
        Action::Exchange(SpiStream::write(0x0600, 0x01))
    );
    assert_eq!(
        sock.send_command(Command::Listen).action(),
        Action::Exchange(SpiStream::write(0x0601, 0x02))
    );
    assert_eq!(
        sock.set_source_port(0xabcd).action(),
        Action::Exchange(SpiStream::write(0x0604, 0xab))
    );
    assert_eq!(
        sock.write_reg(WriteableSocketRegister::TxWr(0x0102)).action(),
        Action::Exchange(SpiStream::write(0x0624, 0x01))
    );
    assert_eq!(
        sock.write_reg(WriteableSocketRegister::RxRd(0x0102)).action(),
        Action::Exchange(SpiStream::write(0x0628, 0x01))
    );
    let regs = [
        (ReadableSocketRegisterU16::TxFsr, 0x0620),
        (ReadableSocketRegisterU16::TxWr, 0x0624),
        (ReadableSocketRegisterU16::RxRsr, 0x0626),
        (ReadableSocketRegisterU16::RxRd, 0x0628),
    ];
    for (reg, addr) in regs {
        assert_eq!(sock.read_reg_u16(reg).action(), Action::Exchange(SpiStream::read(addr)));
    }
}

#[test]
fn receive_on_a_small_socket_wraps_in_its_own_window() {
    let four = device(SocketConfig::FourSockets2KiB);
    let sock = Socket::new(&four, SocketIndex::Three);
    let mut op = sock.recv(16);
    let mut lease = vec![0u8; 16];
    let mut addrs = Vec::new();
    // received size 4, read pointer 2046 + 3 * 2048
    let mut answers = vec![0x00, 0x04, 0x1f, 0xfe, 10, 20, 30, 40, 0, 0, 0].into_iter();
    let result = loop {
        let ev = match op.action() {
            Action::Exchange(cmd) => {
                let b = cmd.as_bytes();
                addrs.push((b[0], u16::from_be_bytes([b[1], b[2]]), b[3]));
                Event::Exchanged(answers.next().unwrap())
            }
            Action::LeaseWrite(i, b) => {
                lease[i] = b;
                Event::LeaseWritten
            }
            other => panic!("unexpected: {:?}", other),
        };
        match op.resume(ev) {
            Poll::Pending(next) => op = next,
            Poll::Ready(r) => break r,
        }
    };
    assert_eq!(result, Ok(4));
    assert_eq!(&lease[..4], &[10, 20, 30, 40]);
    assert_eq!(
        addrs,
        vec![
            (0x0f, 0x0726, 0),
            (0x0f, 0x0727, 0),
            (0x0f, 0x0728, 0),
            (0x0f, 0x0729, 0),
            (0x0f, 0x7ffe, 0),
            (0x0f, 0x7fff, 0),
            (0x0f, 0x7800, 0),
            (0x0f, 0x7801, 0),
            (0xf0, 0x0728, 0x20),
            (0xf0, 0x0729, 0x02),
            (0xf0, 0x0701, 0x40),
        ]
    );
}
