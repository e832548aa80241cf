//! First-in first-out request queues, held in the lock-free queue of the
//! `lockfree` crate.
//!
//! The queue itself is not verified. What is taken on trust of it is
//! written down here: a queue behaves as the sequence [`queued`] in it,
//! growing at the back and shrinking at the front. The library changes a
//! queue only through a unique reference, so nothing else touches the
//! queue while a call is under way.

use vstd::prelude::*;
use lockfree::queue::Queue;

verus! {

/// `lockfree::queue::Queue`, of which nothing inside is looked at.
#[verifier::external_type_specification]
#[verifier::external_body]
#[verifier::reject_recursive_types(T)]
pub struct ExQueue<T>(Queue<T>);

/// The items waiting in a queue of slot indices, oldest first.
pub uninterp spec fn queued(q: Queue<usize>) -> Seq<usize>;

/// `Queue::new`: a queue that holds nothing.
#[verifier::external_body]
pub(crate) fn queue_new() -> (q: Queue<usize>)
    ensures
        queued(q) == Seq::<usize>::empty(),
{
    Queue::new()
}

/// `Queue::push`: the item joins the back of the queue.
#[verifier::external_body]
pub(crate) fn queue_push(q: &mut Queue<usize>, item: usize)
    ensures
        queued(*final(q)) == queued(*old(q)).push(item),
{
    q.push(item)
}

/// `Queue::pop`: the oldest item leaves the queue, if there is one.
#[verifier::external_body]
pub(crate) fn queue_pop(q: &mut Queue<usize>) -> (item: Option<usize>)
    ensures
        queued(*old(q)).len() == 0 ==> item.is_none() && queued(*final(q)) == queued(*old(q)),
        queued(*old(q)).len() > 0 ==> item == Some(queued(*old(q))[0]) && queued(*final(q))
            == queued(*old(q)).skip(1),
{
    q.pop()
}

} // verus!
