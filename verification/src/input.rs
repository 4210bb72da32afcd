//! Input multiplexer.
//!
//! Three touch-sense buttons are sampled in a round-robin fashion; the three
//! raw readings are folded into a 3-bit vector, and a change of that vector
//! is reported as one of seven input events.  The hardware acquisition
//! itself (starting a touch-sense conversion and reading its counter) is
//! done by the surrounding runtime; this module owns only the decision
//! logic: which pin to sample next, how a reading updates the vector, and
//! which event a vector denotes.

use vstd::prelude::*;

verus! {

pub const LEFT: u8 = 1;
pub const MIDDLE: u8 = 2;
pub const RIGHT: u8 = 4;
pub const LEFT_MIDDLE: u8 = LEFT | MIDDLE;
pub const RIGHT_MIDDLE: u8 = RIGHT | MIDDLE;
pub const LEFT_RIGHT: u8 = LEFT | RIGHT;
pub const ALL: u8 = LEFT | MIDDLE | RIGHT;
pub const NONE: u8 = 0;

/// One decoded input combination.
#[derive(Debug, Copy, Clone, PartialEq, Eq, Structural)]
pub enum InputEvent {
    Left,
    Middle,
    Right,
    LeftMiddle,
    RightMiddle,
    /// Left and right together.
    Dual,
    /// All three buttons together.
    Multi,
}

#[derive(Debug, Copy, Clone, PartialEq, Eq, Structural)]
pub enum Error {
    /// The input vector is unchanged, or no button is pressed.
    NoInput,
    /// The vector holds a bit outside the three button bits.
    InvalidInputVector(u8),
    /// A pin outside the three sampled pins was addressed.
    InvalidInputPin,
    /// A hardware acquisition is already running.
    AcquisitionInProgress,
    /// Not all three pins have been sampled yet.
    Incomplete,
}

/// The button bit owned by a pin index.
pub open spec fn pin_mask(pin: u8) -> u8 {
    if pin == 0 {
        LEFT
    } else if pin == 1 {
        MIDDLE
    } else {
        RIGHT
    }
}

/// The event that a raw 3-bit vector denotes.
pub open spec fn event_of_vector(v: u8) -> Result<InputEvent, Error> {
    if v == ALL {
        Ok(InputEvent::Multi)
    } else if v == LEFT_RIGHT {
        Ok(InputEvent::Dual)
    } else if v == LEFT_MIDDLE {
        Ok(InputEvent::LeftMiddle)
    } else if v == RIGHT_MIDDLE {
        Ok(InputEvent::RightMiddle)
    } else if v == LEFT {
        Ok(InputEvent::Left)
    } else if v == MIDDLE {
        Ok(InputEvent::Middle)
    } else if v == RIGHT {
        Ok(InputEvent::Right)
    } else if v == NONE {
        Err(Error::NoInput)
    } else {
        Err(Error::InvalidInputVector(v))
    }
}

/// Multiplexes the three touch-sense inputs into input events.
pub struct InputManager {
    /// The vector built from the three most recent samples.
    pub raw_vector: u8,
    /// The vector last reported to the caller.
    pub last_vector: u8,
    /// The pin to be sampled next, always below 3.
    pub pin_idx: u8,
    /// A touch is a reading strictly below this threshold.
    pub tsc_threshold: u16,
    /// Whether a hardware acquisition is currently running.
    pub acquiring: bool,
}

impl InputManager {
    /// Only the three button bits are ever set, and the pin index stays
    /// within the three sampled pins.
    pub open spec fn wf(&self) -> bool {
        self.pin_idx < 3 && self.raw_vector < 8
    }

    /// Creates a new instance of the InputManager.
    pub fn new(threshold: u16) -> (r: Self)
        ensures
            r.wf(),
            r.raw_vector == 0,
            r.last_vector == 0,
            r.pin_idx == 0,
            r.tsc_threshold == threshold,
            !r.acquiring,
    {
        Self {
            raw_vector: 0,
            last_vector: 0,
            pin_idx: 0,
            tsc_threshold: threshold,
            acquiring: false,
        }
    }

    /// Folds one sample into the vector: a touch sets the current pin's bit,
    /// its absence clears it; the pin index then moves on, wrapping after
    /// the third pin.
    pub fn update_input(&mut self, active: bool)
        requires
            old(self).wf(),
        ensures
            final(self).wf(),
            final(self).raw_vector == (if active {
                old(self).raw_vector | pin_mask(old(self).pin_idx)
            } else {
                old(self).raw_vector & !pin_mask(old(self).pin_idx)
            }),
            final(self).pin_idx == (old(self).pin_idx + 1) % 3,
            final(self).last_vector == old(self).last_vector,
            final(self).tsc_threshold == old(self).tsc_threshold,
            final(self).acquiring == old(self).acquiring,
    {
        let mask: u8 = if self.pin_idx == 0 {
            LEFT
        } else if self.pin_idx == 1 {
            MIDDLE
        } else {
            RIGHT
        };
        let rv = self.raw_vector;
        if active {
            assert(rv < 8 && (mask == 1 || mask == 2 || mask == 4) ==> (rv | mask) < 8)
                by (bit_vector);
            self.raw_vector = rv | mask;
        } else {
            assert(rv < 8 ==> (rv & !mask) < 8) by (bit_vector);
            self.raw_vector = rv & !mask;
        }
        self.pin_idx = self.pin_idx + 1;
        if self.pin_idx > 2 {
            self.pin_idx = 0;
        }
    }

    /// Reports the event the current vector denotes, once per change: a
    /// vector equal to the last reported one yields `NoInput`, and a
    /// reported vector is remembered.
    pub fn output(&mut self) -> (r: Result<InputEvent, Error>)
        requires
            old(self).wf(),
        ensures
            final(self).wf(),
            final(self).raw_vector == old(self).raw_vector,
            final(self).pin_idx == old(self).pin_idx,
            final(self).tsc_threshold == old(self).tsc_threshold,
            final(self).acquiring == old(self).acquiring,
            old(self).raw_vector == old(self).last_vector ==> {
                &&& r == Err::<InputEvent, Error>(Error::NoInput)
                &&& final(self).last_vector == old(self).last_vector
            },
            old(self).raw_vector != old(self).last_vector ==> {
                &&& r == event_of_vector(old(self).raw_vector)
                &&& final(self).last_vector == old(self).raw_vector
            },
    {
        if self.raw_vector != self.last_vector {
            let result = if self.raw_vector == ALL {
                Ok(InputEvent::Multi)
            } else if self.raw_vector == LEFT_RIGHT {
                Ok(InputEvent::Dual)
            } else if self.raw_vector == LEFT_MIDDLE {
                Ok(InputEvent::LeftMiddle)
            } else if self.raw_vector == RIGHT_MIDDLE {
                Ok(InputEvent::RightMiddle)
            } else if self.raw_vector == LEFT {
                Ok(InputEvent::Left)
            } else if self.raw_vector == MIDDLE {
                Ok(InputEvent::Middle)
            } else if self.raw_vector == RIGHT {
                Ok(InputEvent::Right)
            } else if self.raw_vector == NONE {
                Err(Error::NoInput)
            } else {
                Err(Error::InvalidInputVector(self.raw_vector))
            };
            self.last_vector = self.raw_vector;
            result
        } else {
            Err(Error::NoInput)
        }
    }

    /// Begins a new acquisition round and says which pin the runtime must
    /// sample; refused while one is already running.
    pub fn start_new(&mut self) -> (r: Result<u8, Error>)
        requires
            old(self).wf(),
        ensures
            final(self).wf(),
            old(self).acquiring ==> {
                &&& r == Err::<u8, Error>(Error::AcquisitionInProgress)
                &&& *final(self) == *old(self)
            },
            !old(self).acquiring ==> {
                &&& r == Ok::<u8, Error>(old(self).pin_idx)
                &&& final(self).acquiring
                &&& final(self).raw_vector == old(self).raw_vector
                &&& final(self).last_vector == old(self).last_vector
                &&& final(self).pin_idx == old(self).pin_idx
                &&& final(self).tsc_threshold == old(self).tsc_threshold
            },
    {
        if self.acquiring {
            return Err(Error::AcquisitionInProgress);
        }
        self.acquiring = true;
        Ok(self.pin_idx)
    }

    /// Folds the value read for the pin the last acquisition sampled into
    /// the vector (a reading strictly below the threshold is a touch), ends
    /// the acquisition, and says whether a full round of three pins is
    /// complete.
    pub fn process_result(&mut self, value: u16) -> (r: Result<(), Error>)
        requires
            old(self).wf(),
        ensures
            final(self).wf(),
            !final(self).acquiring,
            final(self).raw_vector == (if value < old(self).tsc_threshold {
                old(self).raw_vector | pin_mask(old(self).pin_idx)
            } else {
                old(self).raw_vector & !pin_mask(old(self).pin_idx)
            }),
            final(self).pin_idx == (old(self).pin_idx + 1) % 3,
            final(self).last_vector == old(self).last_vector,
            final(self).tsc_threshold == old(self).tsc_threshold,
            r == (if final(self).pin_idx == 2 {
                Ok::<(), Error>(())
            } else {
                Err::<(), Error>(Error::Incomplete)
            }),
    {
        self.update_input(value < self.tsc_threshold);
        self.acquiring = false;
        if self.pin_idx == 2 {
            Ok(())
        } else {
            Err(Error::Incomplete)
        }
    }

    /// Returns the threshold value required to identify a touch.
    pub fn threshold(&self) -> (r: u16)
        ensures
            r == self.tsc_threshold,
    {
        self.tsc_threshold
    }
}

} // verus!
