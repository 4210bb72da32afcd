//! Hex-pair decoding.
//!
//! The firmware-loading path carries binary payloads as ASCII hex: two
//! characters, high nibble first, make one byte.  The character-pair
//! conversion is done by the `simple_hex` crate; the accumulator that
//! gathers a pair one byte at a time is verified here.

use vstd::prelude::*;
use crate::errors::IngressError;

verus! {

/// ASCII `0`.
pub const DIGIT_ZERO: u8 = 0x30;

/// ASCII `9`.
pub const DIGIT_NINE: u8 = 0x39;

/// ASCII `A`.
pub const UPPER_A: u8 = 0x41;

/// ASCII `F`.
pub const UPPER_F: u8 = 0x46;

/// Whether `c` is a hex digit as `simple_hex` accepts it: `0`-`9` or the
/// upper-case `A`-`F`.
pub open spec fn is_hex_digit(c: u8) -> bool {
    (DIGIT_ZERO <= c && c <= DIGIT_NINE) || (UPPER_A <= c && c <= UPPER_F)
}

/// The nibble value of a hex digit.
pub open spec fn hex_digit_value(c: u8) -> int
    recommends
        is_hex_digit(c),
{
    if DIGIT_ZERO <= c && c <= DIGIT_NINE {
        c - DIGIT_ZERO
    } else {
        c - UPPER_A + 10
    }
}

/// The byte a pair of hex digits denotes, high nibble first.
pub open spec fn hex_pair_value(h: u8, l: u8) -> int
    recommends
        is_hex_digit(h),
        is_hex_digit(l),
{
    16 * hex_digit_value(h) + hex_digit_value(l)
}

/// The bytes a run of hex digits denotes, two digits per byte, high nibble
/// first; a trailing odd digit denotes nothing yet.
pub open spec fn hex_decode_pairs(s: Seq<u8>) -> Seq<u8>
    decreases s.len(),
{
    if s.len() < 2 {
        Seq::empty()
    } else {
        seq![(hex_pair_value(s[0], s[1])) as u8] + hex_decode_pairs(s.skip(2))
    }
}

/// Relies on simple_hex::hex_byte_to_byte: two hex characters (digits or
/// upper-case `A`-`F`) yield the byte they denote, high nibble first; any
/// other character yields `Error::BadChar`.
#[verifier::external_body]
fn hex_pair_to_byte(h: u8, l: u8) -> (r: Result<u8, IngressError>)
    ensures
        r == (if is_hex_digit(h) && is_hex_digit(l) {
            Ok::<u8, IngressError>((hex_pair_value(h, l)) as u8)
        } else {
            Err::<u8, IngressError>(IngressError::InvalidHexDigit)
        }),
{
    match simple_hex::hex_byte_to_byte(h, l) {
        Ok(b) => Ok(b),
        Err(_) => Err(IngressError::InvalidHexDigit),
    }
}

/// Gathers two ASCII characters and decodes them into one byte.
pub struct HexDecoder {
    /// The first character of the pair, meaningful while `pending` is true.
    pub first: u8,
    /// Whether one character is waiting for its partner.
    pub pending: bool,
}

impl HexDecoder {
    /// The pending character, if one is held.
    pub open spec fn model(&self) -> Option<u8> {
        if self.pending {
            Some(self.first)
        } else {
            None
        }
    }

    /// An empty accumulator.
    pub fn new() -> (r: Self)
        ensures
            r.model() is None,
    {
        HexDecoder { first: 0, pending: false }
    }

    /// Forgets a pending character.
    pub fn reset(&mut self)
        ensures
            final(self).model() is None,
    {
        self.pending = false;
    }

    /// Feeds one character: the first of a pair is held back, the second
    /// completes the pair and yields the decoded byte, high nibble first.
    /// A pair with a character that is no hex digit is refused, and the
    /// accumulator is reset either way.
    pub fn feed(&mut self, byte: u8) -> (r: Result<Option<u8>, IngressError>)
        ensures
            old(self).model() is None ==> {
                &&& r == Ok::<Option<u8>, IngressError>(None)
                &&& final(self).model() == Some(byte)
            },
            old(self).model() matches Some(h) ==> {
                &&& final(self).model() is None
                &&& is_hex_digit(h) && is_hex_digit(byte) ==> (r matches Ok(o)
                    && o matches Some(b) && b == hex_pair_value(h, byte))
                &&& !(is_hex_digit(h) && is_hex_digit(byte)) ==> r == Err::<
                    Option<u8>,
                    IngressError,
                >(IngressError::InvalidHexDigit)
            },
    {
        if !self.pending {
            self.first = byte;
            self.pending = true;
            Ok(None)
        } else {
            self.pending = false;
            match hex_pair_to_byte(self.first, byte) {
                Ok(b) => Ok(Some(b)),
                Err(e) => Err(e),
            }
        }
    }
}

} // verus!
