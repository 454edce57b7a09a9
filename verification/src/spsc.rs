//! Trusted boundary to `heapless::spsc::Queue`, the lock-free index-based
//! SPSC ring that stores the committed PDU buffers.
//!
//! The queue is used here with `N = 2`, which per `heapless` gives a
//! capacity of `N - 1 = 1` element: the single slot. Its contents are
//! abstracted by [`slots`], a front-to-back sequence of the views of the
//! queued buffers.

use vstd::prelude::*;

verus! {

#[verifier::external_type_specification]
#[verifier::external_body]
#[verifier::reject_recursive_types(T)]
pub struct ExSpscQueue<T, const N: usize>(heapless::spsc::Queue<T, N>);

/// The ring as instantiated here: slots are owned byte buffers, and `N = 2`
/// makes room for exactly one queued element.
pub(crate) type PduRing = heapless::spsc::Queue<Vec<u8>, 2>;

/// The queued buffers, oldest first, each abstracted to its byte sequence.
pub uninterp spec fn slots(q: PduRing) -> Seq<Seq<u8>>;

/// Relies on `heapless::spsc::Queue::new`: it creates an empty queue
/// (`head == tail`, so `is_empty` holds and nothing can be dequeued).
#[verifier::external_body]
pub(crate) fn spsc_new() -> (q: PduRing)
    ensures
        slots(q) == Seq::<Seq<u8>>::empty(),
{
    heapless::spsc::Queue::new()
}

/// Relies on `heapless::spsc::Queue::is_empty`: `head == tail` exactly when
/// no element is queued.
#[verifier::external_body]
pub(crate) fn spsc_is_empty(q: &PduRing) -> (r: bool)
    ensures
        r == (slots(*q).len() == 0),
{
    q.is_empty()
}

/// Relies on `heapless::spsc::Queue::enqueue`: it appends the value at the
/// tail, or returns the value back unchanged when the queue already holds
/// its capacity of `N - 1 = 1` element.
#[verifier::external_body]
pub(crate) fn spsc_enqueue(q: &mut PduRing, v: Vec<u8>) -> (r: Result<(), Vec<u8>>)
    ensures
        slots(*old(q)).len() == 0 ==> slots(*final(q)) == slots(*old(q)).push(v@) && r is Ok,
        slots(*old(q)).len() != 0 ==> slots(*final(q)) == slots(*old(q)) && (r matches Err(w)
            && w@ == v@),
{
    q.enqueue(v)
}

/// Relies on `heapless::spsc::Queue::dequeue`: it removes and returns the
/// element at the head — the oldest one — or returns `None` when the queue
/// is empty.
#[verifier::external_body]
pub(crate) fn spsc_dequeue(q: &mut PduRing) -> (r: Option<Vec<u8>>)
    ensures
        slots(*old(q)).len() == 0 ==> r is None && slots(*final(q)) == slots(*old(q)),
        slots(*old(q)).len() != 0 ==> (r matches Some(v) && v@ == slots(*old(q))[0])
            && slots(*final(q)) == slots(*old(q)).drop_first(),
{
    q.dequeue()
}

/// Relies on `heapless::spsc::Queue::peek`: it returns a reference to the
/// element at the head without removing it, or `None` when the queue is
/// empty. The element is handed out as an owned copy of the buffer.
#[verifier::external_body]
pub(crate) fn spsc_peek_clone(q: &PduRing) -> (r: Option<Vec<u8>>)
    ensures
        (match r {
            Option::None => slots(*q).len() == 0,
            Option::Some(v) => slots(*q).len() != 0 && v@ == slots(*q)[0],
        }),
{
    match q.peek() {
        Some(v) => Some(v.clone()),
        None => None,
    }
}

} // verus!
