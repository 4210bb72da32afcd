//! Frame buffer and type classifier.
//!
//! One in-flight message is accumulated in a fixed-capacity byte buffer
//! together with its classified type.  The buffer is cleared and retyped on
//! every frame start, filled byte by byte during the frame body, and read
//! once by the dispatcher when the frame ends.

use vstd::prelude::*;
use crate::errors::IngressError;

verus! {

/// Fixed capacity of the frame buffer; exceeding it mid-frame is fatal.
pub const BUFFER_CAPACITY: usize = 256;

/// ASCII `N`: a push notification.
pub const TYPE_NOTIFICATION: u8 = 0x4E;

/// ASCII `S`: a device syscall.
pub const TYPE_SYSCALL: u8 = 0x53;

/// ASCII `A`: an application (firmware) load.
pub const TYPE_APPLICATION: u8 = 0x41;

/// The classification of a frame's payload, determined by the first byte
/// after the frame start.
#[derive(Debug, Copy, Clone, PartialEq, Eq, Structural)]
pub enum MessageType {
    Unknown,
    Application,
    Notification,
    Syscall,
}

/// The message type a type-selector byte denotes; unrecognized bytes map
/// to `Unknown`.
pub open spec fn classify_spec(b: u8) -> MessageType {
    if b == TYPE_NOTIFICATION {
        MessageType::Notification
    } else if b == TYPE_SYSCALL {
        MessageType::Syscall
    } else if b == TYPE_APPLICATION {
        MessageType::Application
    } else {
        MessageType::Unknown
    }
}

/// Fixed-capacity accumulator for one in-flight message and its type.
pub struct Buffer {
    /// The classified type of the message being accumulated.
    pub btype: MessageType,
    /// The accumulated body bytes.
    pub data: Vec<u8>,
}

impl Buffer {
    /// The buffer never outgrows its fixed capacity.
    pub open spec fn wf(&self) -> bool {
        self.data@.len() <= BUFFER_CAPACITY
    }

    /// An empty, untyped buffer.
    pub fn new() -> (r: Self)
        ensures
            r.wf(),
            r.btype == MessageType::Unknown,
            r.data@ == Seq::<u8>::empty(),
    {
        Buffer { btype: MessageType::Unknown, data: Vec::new() }
    }

    /// Clears and untypes the buffer, ready for a fresh frame.
    pub fn clear(&mut self)
        ensures
            final(self).wf(),
            final(self).btype == MessageType::Unknown,
            final(self).data@ == Seq::<u8>::empty(),
    {
        self.btype = MessageType::Unknown;
        self.data.clear();
    }

    /// Appends one body byte; refused once the fixed capacity is reached.
    pub fn write(&mut self, byte: u8) -> (r: Result<(), IngressError>)
        requires
            old(self).wf(),
        ensures
            final(self).wf(),
            final(self).btype == old(self).btype,
            old(self).data@.len() < BUFFER_CAPACITY ==> {
                &&& r == Ok::<(), IngressError>(())
                &&& final(self).data@ == old(self).data@.push(byte)
            },
            old(self).data@.len() == BUFFER_CAPACITY ==> {
                &&& r == Err::<(), IngressError>(IngressError::BufferFull)
                &&& final(self).data@ == old(self).data@
            },
    {
        if self.data.len() < BUFFER_CAPACITY {
            self.data.push(byte);
            Ok(())
        } else {
            Err(IngressError::BufferFull)
        }
    }
}

/// An owned copy of a byte vector.
pub fn copy_bytes(v: &Vec<u8>) -> (r: Vec<u8>)
    ensures
        r@ == v@,
{
    let mut out: Vec<u8> = Vec::new();
    let mut i: usize = 0;
    while i < v.len()
        invariant
            i <= v@.len(),
            out@ == v@.take(i as int),
        decreases v@.len() - i,
    {
        out.push(v[i]);
        i = i + 1;
        assert(out@ == v@.take(i as int)) by {
            assert(v@.take(i as int) == v@.take(i - 1).push(v@[i - 1]));
        }
    }
    assert(v@.take(v@.len() as int) == v@);
    out
}

} // verus!
