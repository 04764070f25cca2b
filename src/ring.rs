//! The bounded FIFO of commit instants kept by a rate limiter, held in a
//! `queues::CircularBuffer`.

use queues::{CircularBuffer, IsQueue};
use vstd::prelude::*;

verus! {

#[verifier::external_type_specification]
#[verifier::external_body]
#[verifier::reject_recursive_types(T)]
pub struct ExCircularBuffer<T: Clone>(CircularBuffer<T>);

/// The instants held by the buffer, oldest first.
pub uninterp spec fn ring_contents(b: CircularBuffer<u64>) -> Seq<u64>;

/// The capacity that the buffer was created with.
pub uninterp spec fn ring_capacity(b: CircularBuffer<u64>) -> nat;

/// Relies on `CircularBuffer::new`: an empty buffer of the given capacity.
#[verifier::external_body]
pub(crate) fn ring_new(capacity: usize) -> (r: CircularBuffer<u64>)
    ensures
        ring_contents(r) == Seq::<u64>::empty(),
        ring_capacity(r) == capacity as nat,
{
    CircularBuffer::new(capacity)
}

/// Relies on `CircularBuffer::capacity`: the capacity given at creation.
#[verifier::external_body]
pub(crate) fn ring_capacity_of(b: &CircularBuffer<u64>) -> (r: usize)
    ensures
        r as nat == ring_capacity(*b),
{
    b.capacity()
}

/// Relies on `IsQueue::size` for `CircularBuffer`: the number of held items.
#[verifier::external_body]
pub(crate) fn ring_size(b: &CircularBuffer<u64>) -> (r: usize)
    ensures
        r as nat == ring_contents(*b).len(),
{
    b.size()
}

/// Relies on `IsQueue::peek` for `CircularBuffer`: the oldest item, or an
/// error when the buffer is empty.
#[verifier::external_body]
pub(crate) fn ring_peek(b: &CircularBuffer<u64>) -> (r: Option<u64>)
    ensures
        ring_contents(*b).len() == 0 ==> r is None,
        ring_contents(*b).len() > 0 ==> r == Some(ring_contents(*b)[0]),
{
    b.peek().ok()
}

/// Relies on `IsQueue::add` for `CircularBuffer`: the item goes to the back;
/// when the buffer was already full, its oldest item is pushed out.
#[verifier::external_body]
pub(crate) fn ring_add(b: &mut CircularBuffer<u64>, v: u64)
    requires
        ring_contents(*old(b)).len() <= ring_capacity(*old(b)),
    ensures
        ring_capacity(*final(b)) == ring_capacity(*old(b)),
        ring_contents(*old(b)).len() < ring_capacity(*old(b)) ==> ring_contents(*final(b))
            == ring_contents(*old(b)).push(v),
        ring_contents(*old(b)).len() == ring_capacity(*old(b)) ==> ring_contents(*final(b))
            == ring_contents(*old(b)).push(v).drop_first(),
{
    let _ = b.add(v);
}

} // verus!
