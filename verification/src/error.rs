//! Errors of the driver and their wire codes.

use vstd::prelude::*;
use crate::bus::SpiError;

verus! {

/// Why a driver operation failed.
#[derive(Clone, Copy, Debug, PartialEq, Eq, Structural)]
pub enum W5100Error {
    /// The mode register never cleared after a reset, or did not read back
    /// what was written to it.
    ResetFailed,
    /// The socket did not report `Init` after `Open`.
    OpenFailed,
    /// The socket did not report `Listen` after `Listen`.
    ListenFailed,
    /// The peer has closed its side of the connection.
    PeerClosed,
    /// Only socket 0 is served.
    BadSocketNumber,
    /// The SPI transport reported a failure.
    SpiError(SpiError),
    /// The operation is not legal while the socket reports this status.
    BadSocketState(u8),
    /// The status register holds a byte that is no status.
    UnknownSocketStatus(u8),
}

/// Why a client's request failed.
#[derive(Clone, Copy, Debug, PartialEq, Eq, Structural)]
pub enum ClientError {
    /// The client's buffer could not be reached: the client went away.
    WentAway,
}

/// The failure of a request: either the driver's own error, to be
/// reported to the client, or the client's fault.
#[derive(Clone, Copy, Debug, PartialEq, Eq, Structural)]
pub enum RequestError {
    Runtime(W5100Error),
    Fail(ClientError),
}

impl W5100Error {
    /// The code under which the error travels to a client: the plain
    /// errors are 1 to 5, the others carry their byte under a class in the
    /// high byte.
    pub open spec fn code(self) -> u16 {
        match self {
            W5100Error::ResetFailed => 0x0001,
            W5100Error::OpenFailed => 0x0002,
            W5100Error::ListenFailed => 0x0003,
            W5100Error::PeerClosed => 0x0004,
            W5100Error::BadSocketNumber => 0x0005,
            W5100Error::SpiError(inner) => (0x0100 + inner.0) as u16,
            W5100Error::BadSocketState(inner) => (0x0200 + inner) as u16,
            W5100Error::UnknownSocketStatus(inner) => (0x0300 + inner) as u16,
        }
    }

    /// The error that travels under the code `x`, if it is the code of one.
    pub open spec fn decode(x: u32) -> Option<W5100Error> {
        if x == 0x0001 {
            Some(W5100Error::ResetFailed)
        } else if x == 0x0002 {
            Some(W5100Error::OpenFailed)
        } else if x == 0x0003 {
            Some(W5100Error::ListenFailed)
        } else if x == 0x0004 {
            Some(W5100Error::PeerClosed)
        } else if x == 0x0005 {
            Some(W5100Error::BadSocketNumber)
        } else if x / 256 == 1 {
            Some(W5100Error::SpiError(SpiError((x % 256) as u8)))
        } else if x / 256 == 2 {
            Some(W5100Error::BadSocketState((x % 256) as u8))
        } else if x / 256 == 3 {
            Some(W5100Error::UnknownSocketStatus((x % 256) as u8))
        } else {
            None
        }
    }

    /// Encodes the error for the reply to a client.
    pub fn to_u16(self) -> (x: u16)
        ensures
            x == self.code(),
    {
        match self {
            W5100Error::ResetFailed => 0x0001,
            W5100Error::OpenFailed => 0x0002,
            W5100Error::ListenFailed => 0x0003,
            W5100Error::PeerClosed => 0x0004,
            W5100Error::BadSocketNumber => 0x0005,
            W5100Error::SpiError(inner) => {
                let low: u8 = inner.0;
                assert(0x0100u16 | (low as u16) == 0x0100 + low) by (bit_vector);
                0x0100 | (low as u16)
            },
            W5100Error::BadSocketState(inner) => {
                assert(0x0200u16 | (inner as u16) == 0x0200 + inner) by (bit_vector);
                0x0200 | (inner as u16)
            },
            W5100Error::UnknownSocketStatus(inner) => {
                assert(0x0300u16 | (inner as u16) == 0x0300 + inner) by (bit_vector);
                0x0300 | (inner as u16)
            },
        }
    }

    /// Tests whether `x` is the code of an error.
    pub fn is_code(x: u32) -> (b: bool)
        ensures
            b == (Self::decode(x) is Some),
    {
        assert(x >> 8 == x / 256) by (bit_vector);
        (1 <= x && x <= 5) || (1 <= x >> 8 && x >> 8 <= 3)
    }

    /// Decodes what a client received. The number must be the code of an
    /// error: a client gets no other from the driver.
    pub fn from_code(x: u32) -> (e: W5100Error)
        requires
            Self::decode(x) is Some,
        ensures
            Self::decode(x) == Some(e),
            e.code() == x,
    {
        assert(x >> 8 == x / 256 && x & 0xff == x % 256) by (bit_vector);
        let low: u8 = (x & 0xff) as u8;
        match x {
            0x0001 => W5100Error::ResetFailed,
            0x0002 => W5100Error::OpenFailed,
            0x0003 => W5100Error::ListenFailed,
            0x0004 => W5100Error::PeerClosed,
            0x0005 => W5100Error::BadSocketNumber,
            _ => match x >> 8 {
                0x01 => W5100Error::SpiError(SpiError(low)),
                0x02 => W5100Error::BadSocketState(low),
                _ => W5100Error::UnknownSocketStatus(low),
            },
        }
    }

    /// Decodes what may be the code of an error: tests the number, and
    /// decodes it if it is one. `None` for a number that is the code of
    /// no error.
    pub fn from_u32(x: u32) -> (e: Option<W5100Error>)
        ensures
            e == Self::decode(x),
    {
        if Self::is_code(x) {
            Some(Self::from_code(x))
        } else {
            None
        }
    }
}

impl From<SpiError> for W5100Error {
    fn from(err: SpiError) -> (e: W5100Error) {
        W5100Error::SpiError(err)
    }
}

impl vstd::std_specs::convert::FromSpecImpl<SpiError> for W5100Error {
    open spec fn obeys_from_spec() -> bool {
        true
    }

    open spec fn from_spec(err: SpiError) -> W5100Error {
        W5100Error::SpiError(err)
    }
}

impl From<W5100Error> for RequestError {
    fn from(err: W5100Error) -> (e: RequestError) {
        RequestError::Runtime(err)
    }
}

impl vstd::std_specs::convert::FromSpecImpl<W5100Error> for RequestError {
    open spec fn obeys_from_spec() -> bool {
        true
    }

    open spec fn from_spec(err: W5100Error) -> RequestError {
        RequestError::Runtime(err)
    }
}

impl From<W5100Error> for u16 {
    fn from(err: W5100Error) -> (x: u16) {
        err.to_u16()
    }
}

impl vstd::std_specs::convert::FromSpecImpl<W5100Error> for u16 {
    open spec fn obeys_from_spec() -> bool {
        true
    }

    open spec fn from_spec(err: W5100Error) -> u16 {
        err.code()
    }
}

/// Every error's code decodes to that error.
pub proof fn lemma_code_round_trip(e: W5100Error)
    ensures
        W5100Error::decode(e.code() as u32) == Some(e),
{
}

/// Two errors with the same code are the same error.
pub proof fn lemma_code_injective(a: W5100Error, b: W5100Error)
    requires
        a.code() == b.code(),
    ensures
        a == b,
{
}

} // verus!
