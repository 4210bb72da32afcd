//! Syscall parsing and execution.
//!
//! A syscall frame carries an ASCII command.  The one command this device
//! executes is `Thh:mm:ss`, which sets the wall clock.

use vstd::prelude::*;
use crate::errors::SyscallError;
use crate::hex::DIGIT_ZERO;
use crate::hex::DIGIT_NINE;
use crate::system::ClockTime;
use crate::system::System;

verus! {

/// ASCII `T`: the set-time command.
pub const CMD_TIME: u8 = 0x54;

/// ASCII `:`.
pub const COLON: u8 = 0x3A;

/// A parsed, executable syscall.
#[derive(Debug, Copy, Clone, PartialEq, Eq, Structural)]
pub enum Syscall {
    SetTime { hours: u8, minutes: u8, seconds: u8 },
}

/// Whether `c` is an ASCII decimal digit.
pub open spec fn is_digit(c: u8) -> bool {
    DIGIT_ZERO <= c && c <= DIGIT_NINE
}

/// The number two ASCII digits denote.
pub open spec fn two_digit_value(hi: u8, lo: u8) -> int
    recommends
        is_digit(hi),
        is_digit(lo),
{
    10 * (hi - DIGIT_ZERO) + (lo - DIGIT_ZERO)
}

/// The syscall a command string denotes: `Thh:mm:ss` with a valid time of
/// day sets the clock; everything else is malformed.
pub open spec fn syscall_parse_spec(s: Seq<u8>) -> Option<Syscall> {
    if s.len() == 9 && s[0] == CMD_TIME && s[3] == COLON && s[6] == COLON && is_digit(s[1])
        && is_digit(s[2]) && is_digit(s[4]) && is_digit(s[5]) && is_digit(s[7]) && is_digit(s[8])
        && two_digit_value(s[1], s[2]) < 24 && two_digit_value(s[4], s[5]) < 60 && two_digit_value(
        s[7],
        s[8],
    ) < 60 {
        Some(
            Syscall::SetTime {
                hours: two_digit_value(s[1], s[2]) as u8,
                minutes: two_digit_value(s[4], s[5]) as u8,
                seconds: two_digit_value(s[7], s[8]) as u8,
            },
        )
    } else {
        None
    }
}

impl Syscall {
    /// Parses a frame body as a syscall command.
    pub fn parse(data: &Vec<u8>) -> (r: Result<Syscall, SyscallError>)
        ensures
            r == (match syscall_parse_spec(data@) {
                Some(sc) => Ok::<Syscall, SyscallError>(sc),
                None => Err::<Syscall, SyscallError>(SyscallError::Malformed),
            }),
    {
        if data.len() != 9 {
            return Err(SyscallError::Malformed);
        }
        let b0 = data[0];
        let b1 = data[1];
        let b2 = data[2];
        let b3 = data[3];
        let b4 = data[4];
        let b5 = data[5];
        let b6 = data[6];
        let b7 = data[7];
        let b8 = data[8];
        if b0 != CMD_TIME || b3 != COLON || b6 != COLON {
            return Err(SyscallError::Malformed);
        }
        if !(DIGIT_ZERO <= b1 && b1 <= DIGIT_NINE) || !(DIGIT_ZERO <= b2 && b2 <= DIGIT_NINE)
            || !(DIGIT_ZERO <= b4 && b4 <= DIGIT_NINE) || !(DIGIT_ZERO <= b5 && b5 <= DIGIT_NINE)
            || !(DIGIT_ZERO <= b7 && b7 <= DIGIT_NINE) || !(DIGIT_ZERO <= b8 && b8 <= DIGIT_NINE) {
            return Err(SyscallError::Malformed);
        }
        let hours: u8 = 10 * (b1 - DIGIT_ZERO) + (b2 - DIGIT_ZERO);
        let minutes: u8 = 10 * (b4 - DIGIT_ZERO) + (b5 - DIGIT_ZERO);
        let seconds: u8 = 10 * (b7 - DIGIT_ZERO) + (b8 - DIGIT_ZERO);
        if hours >= 24 || minutes >= 60 || seconds >= 60 {
            return Err(SyscallError::Malformed);
        }
        Ok(Syscall::SetTime { hours, minutes, seconds })
    }

    /// Executes the syscall on the device context.
    pub fn execute(&self, system: &mut System)
        ensures
            final(system).am == old(system).am,
            final(system).nm == old(system).nm,
            final(system).dispatches == old(system).dispatches,
            *self matches Syscall::SetTime { hours, minutes, seconds } ==> final(system).clock
                == (ClockTime { hours, minutes, seconds }),
    {
        match self {
            Syscall::SetTime { hours, minutes, seconds } => {
                system.clock = ClockTime { hours: *hours, minutes: *minutes, seconds: *seconds };
            },
        }
    }
}

} // verus!
