//! Settings of the timer that drives a piezo buzzer.
//!
//! The timer counts at 1 MHz and its output is a square wave: the
//! reload value sets the pitch and the compare value the duty cycle.

use vstd::prelude::*;

verus! {

/// Why the buzzer cannot be set.
#[derive(Clone, Copy, Debug, PartialEq, Eq, Structural)]
pub enum PiezoError {
    /// Below 16 Hz the reload value does not fit the timer's 16 bits.
    FrequencyTooLow,
}

impl PiezoError {
    /// The code under which the error travels to a client.
    pub open spec fn code(self) -> u16 {
        1
    }

    /// Encodes the error for the reply to a client.
    pub fn to_u16(self) -> (x: u16)
        ensures
            x == self.code(),
    {
        1
    }

    /// The error that travels under the code `x`, if it is the code of
    /// one.
    pub open spec fn decode(x: u32) -> Option<PiezoError> {
        if x == 1 {
            Some(PiezoError::FrequencyTooLow)
        } else {
            None
        }
    }

    /// Decodes what a client received. The number must be the code of an
    /// error: a client gets no other from the driver.
    pub fn from_code(x: u32) -> (e: PiezoError)
        requires
            Self::decode(x) is Some,
        ensures
            Self::decode(x) == Some(e),
            e.code() == x,
    {
        PiezoError::FrequencyTooLow
    }

    /// Decodes what may be the code of an error: tests the number, and
    /// decodes it if it is one.
    pub fn from_u32(x: u32) -> (e: Option<PiezoError>)
        ensures
            e == Self::decode(x),
    {
        if x == 1 {
            Some(Self::from_code(x))
        } else {
            None
        }
    }
}

impl From<PiezoError> for u16 {
    fn from(err: PiezoError) -> (x: u16) {
        err.to_u16()
    }
}

impl vstd::std_specs::convert::FromSpecImpl<PiezoError> for u16 {
    open spec fn obeys_from_spec() -> bool {
        true
    }

    open spec fn from_spec(err: PiezoError) -> u16 {
        err.code()
    }
}

/// How often the timer counts in a second.
pub const TIMER_FREQ: u32 = 1_000_000;

/// The lowest pitch that the timer can make.
pub const MIN_FREQ: u16 = 16;

/// What to write to the timer.
#[derive(Clone, Copy, Debug, PartialEq, Eq, Structural)]
pub struct Timer {
    /// The reload value: the timer counts from 0 to this.
    pub arr: u16,
    /// The compare value: the output changes when the count passes it.
    pub ccr: u16,
}

impl Timer {
    /// The settings that silence the buzzer: a duty cycle of 0 %.
    pub fn disable() -> (t: Timer)
        ensures
            t == (Timer { arr: 1, ccr: 0 }),
    {
        Timer { arr: 1, ccr: 0 }
    }

    /// The settings for a pitch of `freq` Hz at a duty cycle of 50 %:
    /// the timer's period is the 1 MHz count divided by the pitch.
    pub fn set_frequency(freq: u16) -> (r: Result<Timer, PiezoError>)
        ensures
            freq < MIN_FREQ <==> r == Err::<Timer, PiezoError>(PiezoError::FrequencyTooLow),
            freq >= MIN_FREQ ==> (r matches Ok(t) && t.arr == TIMER_FREQ as int / freq as int - 1
                && t.ccr == t.arr as int / 2 - 1),
    {
        if freq < MIN_FREQ {
            return Err(PiezoError::FrequencyTooLow);
        }
        let period: u32 = TIMER_FREQ / (freq as u32);
        assert(15 <= period <= 62_500) by (nonlinear_arith)
            requires
                period == TIMER_FREQ as int / freq as int,
                16 <= freq <= 65_535,
        ;
        let arr: u16 = (period - 1) as u16;
        Ok(Timer { arr, ccr: arr / 2 - 1 })
    }
}

} // verus!
