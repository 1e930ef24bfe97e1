use vstd::prelude::*;

use crossbeam::queue::ArrayQueue;

verus! {

/// Capacity of the key-event queue from the input thread to the audio
/// callback.
pub const QUEUE_CAP: usize = 64;

/// `crossbeam::queue::ArrayQueue`, a bounded lock-free queue shared between
/// threads through `&` references.
#[verifier::external_type_specification]
#[verifier::external_body]
#[verifier::reject_recursive_types(T)]
pub struct ExArrayQueue<T>(ArrayQueue<T>);

/// The capacity that a key-event queue was created with.
pub uninterp spec fn key_queue_capacity(q: ArrayQueue<u32>) -> nat;

/// `ArrayQueue::new`: a queue of capacity `cap`. The crate panics on a zero
/// capacity, on one whose next power of two above it overflows the queue's
/// index type, and on a slot buffer too large to allocate, so those are left
/// out (a slot of a `u32` queue takes sixteen bytes).
#[verifier::external_body]
fn key_queue_new(cap: usize) -> (q: ArrayQueue<u32>)
    requires
        0 < cap <= usize::MAX / 32,
    ensures
        key_queue_capacity(q) == cap,
{
    ArrayQueue::new(cap)
}

/// `ArrayQueue::push`: attempts to push `value`; when the queue is full the
/// value is handed back in `Err`. Whether it is full depends on the other
/// threads that share the queue, so no clause states which outcome comes.
#[verifier::external_body]
fn key_queue_push(q: &ArrayQueue<u32>, value: u32) -> (r: Result<(), u32>)
    ensures
        r matches Err(v) ==> v == value,
{
    q.push(value)
}

/// `ArrayQueue::pop`: the oldest value, or `None` when the queue is empty.
/// What it holds depends on the other threads that share the queue, so no
/// clause states which value comes.
#[verifier::external_body]
pub(crate) fn key_queue_pop(q: &ArrayQueue<u32>) -> (r: Option<u32>) {
    q.pop()
}

/// The queue that carries keycodes from the input thread to the audio
/// callback, with capacity `QUEUE_CAP`.
pub fn new_input_queue() -> (q: ArrayQueue<u32>)
    ensures
        key_queue_capacity(q) == QUEUE_CAP,
{
    key_queue_new(QUEUE_CAP)
}

/// What became of a key event handed to the input side.
#[derive(Debug, Clone, Copy, PartialEq, Eq, Structural)]
pub enum KeyDelivery {
    /// The keycode was pushed onto the queue.
    Enqueued(u32),
    /// The queue was full and handed the keycode back; it was dropped.
    Dropped(u32),
    /// The event is not a key press that makes a sound.
    Ignored,
}

/// What a push attempt of `keycode` means for the key: pushed, or dropped
/// with the value the full queue handed back.
pub fn push_outcome(keycode: u32, pushed: Result<(), u32>) -> (r: KeyDelivery)
    ensures
        pushed is Ok ==> r == KeyDelivery::Enqueued(keycode),
        pushed matches Err(v) ==> r == KeyDelivery::Dropped(v),
{
    match pushed {
        Ok(()) => KeyDelivery::Enqueued(keycode),
        Err(v) => KeyDelivery::Dropped(v),
    }
}

/// Push a keycode, dropping it when the queue is full: better to miss one
/// click than to block the input thread. Whether the queue is full depends
/// on the audio thread that shares it, so either outcome can come (see
/// `push_outcome`); the keycode is pushed or handed back and dropped, never
/// ignored.
pub fn enqueue_key(q: &ArrayQueue<u32>, keycode: u32) -> (r: KeyDelivery)
    ensures
        r == KeyDelivery::Enqueued(keycode) || r == KeyDelivery::Dropped(keycode),
{
    push_outcome(keycode, key_queue_push(q, keycode))
}

} // verus!
