use drv_w5100_spi::bus::SpiError;
use drv_w5100_spi::error::{ClientError, RequestError, W5100Error};

#[test]
fn plain_errors_have_codes_one_to_five() {
    assert_eq!(u16::from(W5100Error::ResetFailed), 0x0001);
    assert_eq!(u16::from(W5100Error::OpenFailed), 0x0002);
    assert_eq!(u16::from(W5100Error::ListenFailed), 0x0003);
    assert_eq!(u16::from(W5100Error::PeerClosed), 0x0004);
    assert_eq!(u16::from(W5100Error::BadSocketNumber), 0x0005);
}

#[test]
fn errors_with_a_byte_carry_it_under_their_class() {
    assert_eq!(u16::from(W5100Error::SpiError(SpiError(4))), 0x0104);
    assert_eq!(u16::from(W5100Error::BadSocketState(0x17)), 0x0217);
    assert_eq!(u16::from(W5100Error::UnknownSocketStatus(0xff)), 0x03ff);
    assert_eq!(W5100Error::BadSocketState(0x00).to_u16(), 0x0200);
}

#[test]
fn codes_decode_to_their_errors() {
    assert_eq!(W5100Error::from_u32(0x0001), Some(W5100Error::ResetFailed));
    assert_eq!(W5100Error::from_u32(0x0002), Some(W5100Error::OpenFailed));
    assert_eq!(W5100Error::from_u32(0x0003), Some(W5100Error::ListenFailed));
    assert_eq!(W5100Error::from_u32(0x0004), Some(W5100Error::PeerClosed));
    assert_eq!(W5100Error::from_u32(0x0005), Some(W5100Error::BadSocketNumber));
    assert_eq!(W5100Error::from_u32(0x0102), Some(W5100Error::SpiError(SpiError(2))));
    assert_eq!(W5100Error::from_u32(0x021c), Some(W5100Error::BadSocketState(0x1c)));
    assert_eq!(W5100Error::from_u32(0x0399), Some(W5100Error::UnknownSocketStatus(0x99)));
}

#[test]
fn numbers_that_are_no_code_decode_to_nothing() {
    assert_eq!(W5100Error::from_u32(0), None);
    assert_eq!(W5100Error::from_u32(6), None);
    assert_eq!(W5100Error::from_u32(0xff), None);
    assert_eq!(W5100Error::from_u32(0x0400), None);
    assert_eq!(W5100Error::from_u32(0x0001_0101), None);
    assert_eq!(W5100Error::from_u32(u32::MAX), None);
}

#[test]
fn every_code_round_trips() {
    let mut all = vec![
        W5100Error::ResetFailed,
        W5100Error::OpenFailed,
        W5100Error::ListenFailed,
        W5100Error::PeerClosed,
        W5100Error::BadSocketNumber,
    ];
    for b in 0..=255u8 {
        all.push(W5100Error::SpiError(SpiError(b)));
        all.push(W5100Error::BadSocketState(b));
        all.push(W5100Error::UnknownSocketStatus(b));
    }
    for e in all {
        assert_eq!(W5100Error::from_u32(u32::from(e.to_u16())), Some(e));
    }
}

#[test]
fn transport_errors_become_driver_errors() {
    assert_eq!(W5100Error::from(SpiError(3)), W5100Error::SpiError(SpiError(3)));
    assert_eq!(
        RequestError::from(W5100Error::PeerClosed),
        RequestError::Runtime(W5100Error::PeerClosed)
    );
    assert_ne!(
        RequestError::Fail(ClientError::WentAway),
        RequestError::Runtime(W5100Error::PeerClosed)
    );
}

#[test]
fn codes_are_told_from_other_numbers() {
    for x in [1u32, 2, 3, 4, 5, 0x0100, 0x01ff, 0x0200, 0x02ff, 0x0300, 0x03ff] {
        assert!(W5100Error::is_code(x));
    }
    for x in [0u32, 6, 0xff, 0x0400, 0xffff, 0x0001_0001, u32::MAX] {
        assert!(!W5100Error::is_code(x));
    }
}

#[test]
fn a_code_decodes_to_its_error() {
    assert_eq!(W5100Error::from_code(0x0001), W5100Error::ResetFailed);
    assert_eq!(W5100Error::from_code(0x0002), W5100Error::OpenFailed);
    assert_eq!(W5100Error::from_code(0x0003), W5100Error::ListenFailed);
    assert_eq!(W5100Error::from_code(0x0004), W5100Error::PeerClosed);
    assert_eq!(W5100Error::from_code(0x0005), W5100Error::BadSocketNumber);
    assert_eq!(W5100Error::from_code(0x0104), W5100Error::SpiError(SpiError(4)));
    assert_eq!(W5100Error::from_code(0x0217), W5100Error::BadSocketState(0x17));
    assert_eq!(W5100Error::from_code(0x0300), W5100Error::UnknownSocketStatus(0));
    for x in 0..0x0500u32 {
        if W5100Error::is_code(x) {
            assert_eq!(u32::from(W5100Error::from_code(x).to_u16()), x);
            assert_eq!(W5100Error::from_u32(x), Some(W5100Error::from_code(x)));
        } else {
            assert_eq!(W5100Error::from_u32(x), None);
        }
    }
}
