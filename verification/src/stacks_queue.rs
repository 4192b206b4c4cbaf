//! A concurrent pool recycling reserved stacks across spawn attempts.
//!
//! Reserving a region is expensive, so stacks are not dropped after a
//! spawn: `put` hands a used `Stack` to the pool and `get` takes an
//! arbitrary pooled one back, or builds a fresh empty one when the pool
//! is empty. The pool is backed by `crossbeam_queue::SegQueue`, an
//! unbounded lock-free queue; its contents are modelled as the sequence
//! of the pooled stacks' region sizes, in queue order.

use vstd::prelude::*;

use crossbeam_queue::SegQueue;

use crate::lowlevel::Stack;

verus! {

#[verifier::external_type_specification]
#[verifier::external_body]
#[verifier::reject_recursive_types(T)]
pub struct ExSegQueue<T>(SegQueue<T>);

/// The stacks a pool's queue holds, head first: each is represented by
/// its region size.
pub uninterp spec fn seg_queue_stacks(q: SegQueue<Stack>) -> Seq<nat>;

/// Relies on crossbeam_queue::SegQueue::new: creates an empty queue.
#[verifier::external_body]
fn stacks_queue_new() -> (q: SegQueue<Stack>)
    ensures
        seg_queue_stacks(q) == Seq::<nat>::empty(),
{
    SegQueue::new()
}

/// Relies on crossbeam_queue::SegQueue::push: appends the element at the
/// tail of the queue.
#[verifier::external_body]
fn stacks_queue_push(q: &mut SegQueue<Stack>, stack: Stack)
    ensures
        seg_queue_stacks(*final(q)) == seg_queue_stacks(*old(q)).push(stack@),
{
    q.push(stack);
}

/// Relies on crossbeam_queue::SegQueue::pop: removes and returns the head
/// element, or returns nothing exactly when the queue is empty.
#[verifier::external_body]
fn stacks_queue_pop(q: &mut SegQueue<Stack>) -> (r: Option<Stack>)
    ensures
        match r {
            Some(stack) => seg_queue_stacks(*old(q)).len() > 0
                && stack@ == seg_queue_stacks(*old(q)).first()
                && seg_queue_stacks(*final(q)) == seg_queue_stacks(*old(q)).drop_first(),
            None => seg_queue_stacks(*old(q)).len() == 0
                && seg_queue_stacks(*final(q)) == seg_queue_stacks(*old(q)),
        },
{
    q.pop()
}

/// The pool of recycled stacks. Its abstract content is the sequence of
/// the pooled stacks' region sizes, head first.
pub struct StackPool {
    queue: SegQueue<Stack>,
}

impl View for StackPool {
    type V = Seq<nat>;

    closed spec fn view(&self) -> Seq<nat> {
        seg_queue_stacks(self.queue)
    }
}

impl StackPool {
    /// An empty pool.
    pub fn new() -> (p: StackPool)
        ensures
            p@ == Seq::<nat>::empty(),
    {
        StackPool { queue: stacks_queue_new() }
    }
}

impl Default for StackPool {
    fn default() -> (p: StackPool)
        ensures
            p@ == Seq::<nat>::empty(),
    {
        StackPool::new()
    }
}

/// Takes a pooled stack, its region intact, or builds a fresh empty one
/// when the pool holds none. No pooled entry is duplicated or lost: the
/// one returned is removed, the rest stay.
pub fn get(pool: &mut StackPool) -> (s: Stack)
    ensures
        old(pool)@.len() > 0 ==> s@ == old(pool)@.first() && final(pool)@ == old(pool)@.drop_first(),
        old(pool)@.len() == 0 ==> s@ == 0 && final(pool)@ == old(pool)@,
{
    match stacks_queue_pop(&mut pool.queue) {
        Some(stack) => stack,
        None => Stack::new(),
    }
}

/// Hands a used stack to the pool for reuse; its region is kept as it is.
pub fn put(pool: &mut StackPool, stack: Stack)
    ensures
        final(pool)@ == old(pool)@.push(stack@),
{
    stacks_queue_push(&mut pool.queue, stack);
}

/// Pool round trip: a stack put into the pool and taken back keeps its
/// region, so the next reservation against it reuses the region instead
/// of reserving anew.
pub proof fn lemma_pool_round_trip(contents: Seq<nat>, stack: nat)
    requires
        contents.len() == 0,
    ensures
        contents.push(stack).len() > 0,
        contents.push(stack).first() == stack,
        contents.push(stack).drop_first() =~= contents,
{
}

} // verus!
