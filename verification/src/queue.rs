//! Bounded byte queue.
//!
//! The ingress engine buffers the raw link bytes in a fixed-capacity
//! single-producer/single-consumer queue from the `heapless` crate, so that
//! a producer running in interrupt context can hand bytes to the polling
//! consumer without allocation.  The queue itself is outside code, held
//! opaquely in `ByteQueue`; its behaviour is stated here and believed, and
//! everything built on it is verified against these contracts.

use vstd::prelude::*;

verus! {

/// How many bytes the ingress queue holds at most.  A `heapless` queue
/// declared with `N` slots holds `N - 1` elements.
pub const QUEUE_CAPACITY: usize = 512;

/// The raw-byte queue between the producing link and the consuming engine.
#[verifier::external_body]
pub struct ByteQueue {
    q: heapless::spsc::Queue<u8, 513>,
}

/// The bytes the queue holds, oldest first.
pub uninterp spec fn queue_contents(q: ByteQueue) -> Seq<u8>;

/// Relies on heapless::spsc::Queue::new: a fresh queue is empty.
#[verifier::external_body]
pub fn queue_new() -> (q: ByteQueue)
    ensures
        queue_contents(q) == Seq::<u8>::empty(),
{
    ByteQueue { q: heapless::spsc::Queue::new() }
}

/// Relies on heapless::spsc::Queue::enqueue: the byte is appended at the
/// back and `Ok` returned, unless the queue already holds its capacity of
/// `N - 1` elements, in which case it is unchanged and the byte handed back.
#[verifier::external_body]
pub fn queue_enqueue(q: &mut ByteQueue, b: u8) -> (r: bool)
    ensures
        queue_contents(*old(q)).len() < QUEUE_CAPACITY ==> {
            &&& r
            &&& queue_contents(*final(q)) == queue_contents(*old(q)).push(b)
        },
        queue_contents(*old(q)).len() >= QUEUE_CAPACITY ==> {
            &&& !r
            &&& queue_contents(*final(q)) == queue_contents(*old(q))
        },
{
    q.q.enqueue(b).is_ok()
}

/// Relies on heapless::spsc::Queue::dequeue: the front (oldest) byte is
/// removed and returned; `None` on an empty queue.
#[verifier::external_body]
pub fn queue_dequeue(q: &mut ByteQueue) -> (r: Option<u8>)
    ensures
        queue_contents(*old(q)).len() == 0 ==> {
            &&& r is None
            &&& queue_contents(*final(q)) == queue_contents(*old(q))
        },
        queue_contents(*old(q)).len() > 0 ==> {
            &&& r == Some(queue_contents(*old(q))[0])
            &&& queue_contents(*final(q)) == queue_contents(*old(q)).drop_first()
        },
{
    q.q.dequeue()
}

} // verus!
