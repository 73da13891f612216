use drv_w5100_spi::bus::{Action, BusAction, BusEvent, Event, Poll, SpiError, Transaction};
use drv_w5100_spi::error::{ClientError, RequestError, W5100Error};
use drv_w5100_spi::w5100::spi_stream::SpiStream;
use drv_w5100_spi::w5100::{Mode, Payload, ReadableRegisterU8, WriteableRegister, W5100};

fn exchange_of(action: Action) -> [u8; 4] {
    match action {
        Action::Exchange(cmd) => cmd.as_bytes(),
        other => panic!("not an exchange: {:?}", other),
    }
}

#[test]
fn exchange_yields_the_byte_or_the_failure() {
    assert_eq!(W5100::exchanged(Event::Exchanged(0x5a)), Ok(0x5a));
    assert_eq!(
        W5100::exchanged(Event::TransportFailed(SpiError(2))),
        Err(W5100Error::SpiError(SpiError(2)))
    );
}

fn pending(step: Poll<Transaction, Event>) -> Transaction {
    match step {
        Poll::Pending(next) => next,
        Poll::Ready(out) => panic!("ended early: {:?}", out),
    }
}

#[test]
fn exchange_locks_transfers_releases() {
    let cmd = SpiStream::read(0x0403);
    let tx = W5100::exchange_raw(&cmd);
    assert_eq!(tx.action(), BusAction::Lock);
    let tx = pending(tx.resume(BusEvent::Locked));
    assert_eq!(tx.action(), BusAction::Exchange(cmd));
    let tx = pending(tx.resume(BusEvent::Exchanged(0x17)));
    assert_eq!(tx.action(), BusAction::Release);
    assert_eq!(tx.resume(BusEvent::Released), Poll::Ready(Event::Exchanged(0x17)));
}

#[test]
fn exchange_releases_after_a_failed_transfer() {
    let tx = W5100::exchange_raw(&SpiStream::write(0x0401, 0x10));
    let tx = pending(tx.resume(BusEvent::Locked));
    let tx = pending(tx.resume(BusEvent::Failed(SpiError(1))));
    assert_eq!(tx.action(), BusAction::Release);
    assert_eq!(
        tx.resume(BusEvent::Released),
        Poll::Ready(Event::TransportFailed(SpiError(1)))
    );
}

#[test]
fn exchange_that_cannot_lock_has_nothing_to_release() {
    let tx = W5100::exchange_raw(&SpiStream::read(0));
    assert_eq!(
        tx.resume(BusEvent::Failed(SpiError(4))),
        Poll::Ready(Event::TransportFailed(SpiError(4)))
    );
}

#[test]
fn exchange_passes_over_a_failed_release() {
    let tx = W5100::exchange_raw(&SpiStream::read(0));
    let tx = pending(tx.resume(BusEvent::Locked));
    let tx = pending(tx.resume(BusEvent::Exchanged(9)));
    assert_eq!(tx.resume(BusEvent::Failed(SpiError(3))), Poll::Ready(Event::Exchanged(9)));
}

#[test]
fn bus_events_answer_only_their_actions() {
    let failed = BusEvent::Failed(SpiError(1));
    assert!(BusAction::Lock.accepts(&BusEvent::Locked));
    assert!(BusAction::Lock.accepts(&failed));
    assert!(!BusAction::Lock.accepts(&BusEvent::Released));
    assert!(!BusAction::Lock.accepts(&BusEvent::Exchanged(0)));
    let exchange = BusAction::Exchange(SpiStream::read(0));
    assert!(exchange.accepts(&BusEvent::Exchanged(0)));
    assert!(exchange.accepts(&failed));
    assert!(!exchange.accepts(&BusEvent::Locked));
    assert!(BusAction::Release.accepts(&BusEvent::Released));
    assert!(BusAction::Release.accepts(&failed));
    assert!(!BusAction::Release.accepts(&BusEvent::Exchanged(0)));
}

#[test]
fn events_answer_only_their_actions() {
    let exchange = Action::Exchange(SpiStream::read(0));
    assert!(exchange.accepts(&Event::Exchanged(0)));
    assert!(exchange.accepts(&Event::TransportFailed(SpiError(1))));
    assert!(!exchange.accepts(&Event::Slept));
    assert!(!exchange.accepts(&Event::LeaseGone));
    assert!(Action::Sleep(5).accepts(&Event::Slept));
    assert!(!Action::Sleep(5).accepts(&Event::Exchanged(0)));
    assert!(Action::LeaseRead(0).accepts(&Event::LeaseByte(1)));
    assert!(Action::LeaseRead(0).accepts(&Event::LeaseGone));
    assert!(!Action::LeaseRead(0).accepts(&Event::LeaseWritten));
    assert!(Action::LeaseWrite(0, 1).accepts(&Event::LeaseWritten));
    assert!(Action::LeaseWrite(0, 1).accepts(&Event::LeaseGone));
    assert!(!Action::LeaseWrite(0, 1).accepts(&Event::LeaseByte(1)));
}

#[test]
fn write_raw_sends_one_frame_per_byte() {
    let mut op = W5100::write_raw(0x00fe, Payload::Four(1, 2, 3, 4));
    let mut frames = vec![exchange_of(op.action())];
    loop {
        match op.resume(Event::Exchanged(0)) {
            Poll::Pending(next) => {
                op = next;
                frames.push(exchange_of(op.action()));
            }
            Poll::Ready(r) => {
                assert_eq!(r, Ok(()));
                break;
            }
        }
    }
    assert_eq!(
        frames,
        vec![[0xf0, 0x00, 0xfe, 1], [0xf0, 0x00, 0xff, 2], [0xf0, 0x01, 0x00, 3], [0xf0, 0x01, 0x01, 4]]
    );
}

#[test]
fn write_raw_stops_at_a_transport_failure() {
    let op = W5100::write_raw(0x0009, Payload::Six(1, 2, 3, 4, 5, 6));
    let op = match op.resume(Event::Exchanged(0)) {
        Poll::Pending(next) => next,
        Poll::Ready(r) => panic!("ended early: {:?}", r),
    };
    assert_eq!(
        op.resume(Event::TransportFailed(SpiError(1))),
        Poll::Ready(Err(W5100Error::SpiError(SpiError(1))))
    );
}

#[test]
fn write_raw_reaches_the_last_register() {
    let op = W5100::write_raw(0xfffe, Payload::Two(7, 8));
    assert_eq!(exchange_of(op.action()), [0xf0, 0xff, 0xfe, 7]);
    let op = match op.resume(Event::Exchanged(0)) {
        Poll::Pending(next) => next,
        Poll::Ready(r) => panic!("ended early: {:?}", r),
    };
    assert_eq!(exchange_of(op.action()), [0xf0, 0xff, 0xff, 8]);
    assert_eq!(op.resume(Event::Exchanged(0)), Poll::Ready(Ok(())));
}

#[test]
fn payload_bytes_are_most_significant_first() {
    assert_eq!(Payload::from_u16(0x1f90), Payload::Two(0x1f, 0x90));
    assert_eq!(Payload::from_u16(0x00ff), Payload::Two(0x00, 0xff));
    assert_eq!(Payload::from_4([1, 2, 3, 4]), Payload::Four(1, 2, 3, 4));
    assert_eq!(Payload::from_6([1, 2, 3, 4, 5, 6]), Payload::Six(1, 2, 3, 4, 5, 6));
    let p = Payload::Six(10, 11, 12, 13, 14, 15);
    assert_eq!(p.len(), 6);
    let bytes: Vec<u8> = (0..6).map(|i| p.byte(i)).collect();
    assert_eq!(bytes, vec![10, 11, 12, 13, 14, 15]);
    assert_eq!(Payload::One(9).len(), 1);
    assert_eq!(Payload::One(9).byte(0), 9);
    assert_eq!(Payload::Two(1, 2).byte(1), 2);
    assert_eq!(Payload::Four(1, 2, 3, 4).byte(2), 3);
}

#[test]
fn global_registers_lie_at_their_addresses() {
    let table = [
        (WriteableRegister::Mr(Mode::reset()), [0xf0, 0x00, 0x00, 0x80]),
        (WriteableRegister::Gar([9, 8, 7, 6]), [0xf0, 0x00, 0x01, 9]),
        (WriteableRegister::Subr([9, 8, 7, 6]), [0xf0, 0x00, 0x05, 9]),
        (WriteableRegister::Shar([5, 4, 3, 2, 1, 0]), [0xf0, 0x00, 0x09, 5]),
        (WriteableRegister::Sipr([9, 8, 7, 6]), [0xf0, 0x00, 0x0f, 9]),
        (WriteableRegister::Rmsr(0x55), [0xf0, 0x00, 0x1a, 0x55]),
        (WriteableRegister::Tmsr(0x0a), [0xf0, 0x00, 0x1b, 0x0a]),
    ];
    for (reg, frame) in table {
        assert_eq!(exchange_of(W5100::write_reg(reg).action()), frame);
    }
    assert_eq!(
        exchange_of(W5100::read_reg_u8(ReadableRegisterU8::Mr).action()),
        [0x0f, 0x00, 0x00, 0x00]
    );
}

#[test]
fn mode_bits() {
    assert_eq!(Mode::empty().bits(), 0x00);
    assert_eq!(Mode::reset().bits(), 0x80);
    assert_eq!(Mode::ping_block().bits(), 0x10);
    assert_eq!(Mode::address_auto_increment().bits(), 0x02);
    assert_eq!(Mode::ping_block().union(Mode::address_auto_increment()).bits(), 0x12);
}

#[test]
fn read_u8_yields_the_byte() {
    let op = W5100::read_u8(0x0403);
    assert_eq!(exchange_of(op.action()), [0x0f, 0x04, 0x03, 0x00]);
    assert_eq!(op.finish(Event::Exchanged(0x17)), Ok(0x17));
    assert_eq!(
        op.finish(Event::TransportFailed(SpiError(9))),
        Err(W5100Error::SpiError(SpiError(9)))
    );
}

#[test]
fn read_u16_is_big_endian_over_two_registers() {
    let op = W5100::read_u16(0x0426);
    assert_eq!(exchange_of(op.action()), [0x0f, 0x04, 0x26, 0x00]);
    let op = match op.resume(Event::Exchanged(0x12)) {
        Poll::Pending(next) => next,
        Poll::Ready(r) => panic!("ended early: {:?}", r),
    };
    assert_eq!(exchange_of(op.action()), [0x0f, 0x04, 0x27, 0x00]);
    assert_eq!(op.resume(Event::Exchanged(0x34)), Poll::Ready(Ok(0x1234)));
    assert_eq!(
        op.resume(Event::TransportFailed(SpiError(1))),
        Poll::Ready(Err(W5100Error::SpiError(SpiError(1))))
    );
}

#[test]
fn read_raw_lease_stores_each_byte_where_it_belongs() {
    let mut op = W5100::read_raw_lease(0x60ff, 3, 5);
    let mut lease = vec![0u8; 8];
    let mut addrs = Vec::new();
    let mut chip = vec![0xaa, 0xbb, 0xcc].into_iter();
    let result = loop {
        let ev = match op.action() {
            Action::Exchange(cmd) => {
                addrs.push(cmd.as_bytes());
                Event::Exchanged(chip.next().unwrap())
            }
            Action::LeaseWrite(i, b) => {
                lease[i] = b;
                Event::LeaseWritten
            }
            other => panic!("unexpected: {:?}", other),
        };
        match op.resume(ev) {
            Poll::Pending(next) => op = next,
            Poll::Ready(r) => break r,
        }
    };
    assert_eq!(result, Ok(()));
    assert_eq!(lease, vec![0, 0, 0, 0, 0, 0xaa, 0xbb, 0xcc]);
    assert_eq!(addrs, vec![[0x0f, 0x60, 0xff, 0], [0x0f, 0x61, 0x00, 0], [0x0f, 0x61, 0x01, 0]]);
}

#[test]
fn read_raw_lease_tells_a_lost_client_from_a_lost_bus() {
    let op = W5100::read_raw_lease(0x6000, 2, 0);
    assert_eq!(
        op.resume(Event::TransportFailed(SpiError(7))),
        Poll::Ready(Err(RequestError::Runtime(W5100Error::SpiError(SpiError(7)))))
    );
    let op = match op.resume(Event::Exchanged(1)) {
        Poll::Pending(next) => next,
        Poll::Ready(r) => panic!("ended early: {:?}", r),
    };
    assert_eq!(op.action(), Action::LeaseWrite(0, 1));
    assert_eq!(
        op.resume(Event::LeaseGone),
        Poll::Ready(Err(RequestError::Fail(ClientError::WentAway)))
    );
}

#[test]
fn write_raw_lease_fetches_then_writes() {
    let mut op = W5100::write_raw_lease(0x4ffe, 3, 2);
    let lease = [0u8, 0, 0x11, 0x22, 0x33];
    let mut frames = Vec::new();
    let mut asked = Vec::new();
    let result = loop {
        let ev = match op.action() {
            Action::Exchange(cmd) => {
                frames.push(cmd.as_bytes());
                Event::Exchanged(0)
            }
            Action::LeaseRead(i) => {
                asked.push(i);
                Event::LeaseByte(lease[i])
            }
            other => panic!("unexpected: {:?}", other),
        };
        match op.resume(ev) {
            Poll::Pending(next) => op = next,
            Poll::Ready(r) => break r,
        }
    };
    assert_eq!(result, Ok(()));
    assert_eq!(asked, vec![2, 3, 4]);
    assert_eq!(
        frames,
        vec![[0xf0, 0x4f, 0xfe, 0x11], [0xf0, 0x4f, 0xff, 0x22], [0xf0, 0x50, 0x00, 0x33]]
    );
}

#[test]
fn write_raw_lease_sends_nothing_for_a_lost_client() {
    let op = W5100::write_raw_lease(0x4000, 2, 0);
    assert_eq!(op.action(), Action::LeaseRead(0));
    assert_eq!(
        op.resume(Event::LeaseGone),
        Poll::Ready(Err(RequestError::Fail(ClientError::WentAway)))
    );
}
