//! The arena allocator that stages objects for use across a fork, and the
//! decision core of the fork protocol.
//!
//! A `Stack` owns one reserved memory region; `reserve` sizes it for a
//! single spawn attempt and hands out a `StackObjectAllocator`, a bump
//! allocator over the reserved object area. `alloc_obj` places one object
//! and yields an owning `StackBox`; exhaustion hands the object back
//! unchanged. Byte accounting is exact: the sum of the aligned sizes of
//! the placed objects never exceeds the reserved capacity.

use vstd::prelude::*;
use vstd::layout::layout_for_type_is_valid;

use crate::error::{SyscallError, ENOMEM};

verus! {

/// Bytes reserved for the spawn machinery itself on every `reserve`,
/// whatever sizes the caller asks for.
pub const MIN_RESERVED_STACK_SZ: usize = 32 * 1024;

/// The whole region a reservation must cover: the fixed machinery
/// minimum, the caller's extra stack, and the caller's object area.
pub open spec fn reserve_needed(reserved_stack_sz: nat, reserved_obj_sz: nat) -> nat {
    (MIN_RESERVED_STACK_SZ + reserved_stack_sz + reserved_obj_sz) as nat
}

/// The region size after a reservation: grown when too small for the
/// attempt, kept as it is when already large enough.
pub open spec fn reserve_region_after(region: nat, reserved_stack_sz: nat, reserved_obj_sz: nat) -> nat {
    let needed = reserve_needed(reserved_stack_sz, reserved_obj_sz);
    if region < needed {
        needed
    } else {
        region
    }
}

/// A reserved memory region for one spawn attempt at a time, recycled
/// across attempts. Its abstract content is the region's size in bytes;
/// a fresh `Stack` owns no region yet.
#[derive(Debug)]
pub struct Stack {
    region_sz: usize,
}

impl View for Stack {
    type V = nat;

    closed spec fn view(&self) -> nat {
        self.region_sz as nat
    }
}

impl Default for Stack {
    fn default() -> (s: Stack)
        ensures
            s@ == 0,
    {
        Stack::new()
    }
}

impl Stack {
    /// An empty stack: no region reserved yet.
    pub fn new() -> (s: Stack)
        ensures
            s@ == 0,
    {
        Stack { region_sz: 0 }
    }

    /// The size in bytes of the region this stack currently owns.
    pub fn region_size(&self) -> (r: usize)
        ensures
            r == self@,
    {
        self.region_sz
    }

    /// Sizes the region for one spawn attempt and hands out the attempt's
    /// bump allocator.
    ///
    /// * `reserved_stack_sz` - extra stack bytes beyond the fixed machinery
    ///   minimum, needed only for deep calls or many locals in the child.
    /// * `reserved_obj_sz` - bytes for the objects the caller will place
    ///   through `StackObjectAllocator::alloc_obj`.
    ///
    /// The region is grown when too small and kept when already large
    /// enough, so a recycled stack reserves no new region for an attempt
    /// it can already hold. The only failure is a request no region can
    /// hold at all, reported as a memory allocation error.
    pub fn reserve(&mut self, reserved_stack_sz: usize, reserved_obj_sz: usize)
        -> (r: Result<StackObjectAllocator, SyscallError>)
        ensures
            reserve_needed(reserved_stack_sz as nat, reserved_obj_sz as nat) <= usize::MAX ==> ({
                &&& r matches Ok(alloc)
                &&& final(self)@ == reserve_region_after(old(self)@, reserved_stack_sz as nat, reserved_obj_sz as nat)
                &&& alloc.region() == final(self)@
                &&& alloc.capacity() == reserved_obj_sz
                &&& alloc.allocated() == 0
            }),
            reserve_needed(reserved_stack_sz as nat, reserved_obj_sz as nat) > usize::MAX ==> ({
                &&& r matches Err(e)
                &&& e.errno == ENOMEM
                &&& final(self)@ == old(self)@
            }),
    {
        let stack_part = match MIN_RESERVED_STACK_SZ.checked_add(reserved_stack_sz) {
            Some(v) => v,
            None => {
                return Err(SyscallError::new(ENOMEM));
            },
        };
        let needed = match stack_part.checked_add(reserved_obj_sz) {
            Some(v) => v,
            None => {
                return Err(SyscallError::new(ENOMEM));
            },
        };
        if self.region_sz < needed {
            self.region_sz = needed;
        }
        Ok(StackObjectAllocator::new(self.region_sz, reserved_obj_sz))
    }
}

/// The size an allocation request occupies: the object's size rounded up
/// to its alignment.
pub open spec fn aligned_size(size: nat, align: nat) -> nat {
    if align == 0 {
        size
    } else if size % align == 0 {
        size
    } else {
        (size + (align - size % align)) as nat
    }
}

/// One allocation against capacity `capacity` with `allocated` bytes
/// already taken: the request is granted exactly when it still fits.
pub open spec fn arena_alloc_step(allocated: nat, capacity: nat, request: nat) -> nat {
    if allocated + request <= capacity {
        allocated + request
    } else {
        allocated
    }
}

/// The bytes taken after a whole sequence of allocation requests against
/// capacity `capacity`, starting from an empty arena.
pub open spec fn arena_alloc_fold(capacity: nat, requests: Seq<nat>) -> nat
    decreases requests.len(),
{
    if requests.len() == 0 {
        0
    } else {
        arena_alloc_step(arena_alloc_fold(capacity, requests.drop_last()), capacity, requests.last())
    }
}

/// Arena capacity invariant: whatever sequence of allocation requests is
/// made against an arena of capacity `capacity`, the bytes taken by the
/// granted requests never exceed `capacity`.
pub proof fn lemma_arena_capacity_invariant(capacity: nat, requests: Seq<nat>)
    ensures
        arena_alloc_fold(capacity, requests) <= capacity,
    decreases requests.len(),
{
    if requests.len() > 0 {
        lemma_arena_capacity_invariant(capacity, requests.drop_last());
    }
}

/// Exclusive fill: `k` requests of one positive size `s` against capacity
/// `n * s` take exactly `k * s` bytes, for every `k` up to `n`.
pub proof fn lemma_uniform_alloc_exact_fill(s: nat, n: nat, k: nat)
    requires
        0 < s,
        k <= n,
    ensures
        arena_alloc_fold(n * s, Seq::new(k, |i: int| s)) == k * s,
    decreases k,
{
    let reqs = Seq::new(k, |i: int| s);
    if k == 0 {
        assert(reqs.len() == 0);
    } else {
        assert(reqs.drop_last() =~= Seq::new((k - 1) as nat, |i: int| s));
        lemma_uniform_alloc_exact_fill(s, n, (k - 1) as nat);
        assert((k - 1) * s + s == k * s) by (nonlinear_arith);
        assert(k * s <= n * s) by (nonlinear_arith)
            requires 0 < s && k <= n,
        ;
    }
}

/// Exclusive overflow: once `n` requests of size `s` have filled capacity
/// `n * s` exactly, one more request of size `s` is refused and the arena
/// is left unchanged.
pub proof fn lemma_uniform_alloc_next_fails(s: nat, n: nat)
    requires
        0 < s,
    ensures
        arena_alloc_step(n * s, n * s, s) == n * s,
{
}

/// Pool reuse: a region already large enough for an attempt is kept as it
/// is, so reserving a recycled stack issues no new reservation.
pub proof fn lemma_reserve_reuses_region(region: nat, reserved_stack_sz: nat, reserved_obj_sz: nat)
    requires
        reserve_needed(reserved_stack_sz, reserved_obj_sz) <= region,
    ensures
        reserve_region_after(region, reserved_stack_sz, reserved_obj_sz) == region,
{
}

/// Pool reuse: the allocator a reservation hands out is determined by the
/// requested sizes alone, so a recycled stack and a fresh one give
/// attempts that behave identically.
pub proof fn lemma_reserve_allocator_uniform(
    region_a: nat,
    region_b: nat,
    reserved_stack_sz: nat,
    reserved_obj_sz: nat,
)
    ensures
        reserve_region_after(region_a, reserved_stack_sz, reserved_obj_sz)
            >= reserve_needed(reserved_stack_sz, reserved_obj_sz),
        reserve_region_after(region_b, reserved_stack_sz, reserved_obj_sz)
            >= reserve_needed(reserved_stack_sz, reserved_obj_sz),
{
}

/// The bump allocator of one spawn attempt: places objects into the
/// stack's reserved object area and accounts for every granted byte.
#[derive(Debug)]
pub struct StackObjectAllocator {
    region_sz: usize,
    reserved_obj_sz: usize,
    alloc_obj_sz: usize,
}

impl StackObjectAllocator {
    /// The size of the region backing this attempt.
    pub closed spec fn region(&self) -> nat {
        self.region_sz as nat
    }

    /// The byte capacity reserved for caller objects.
    pub closed spec fn capacity(&self) -> nat {
        self.reserved_obj_sz as nat
    }

    /// The bytes already taken by granted allocations.
    pub closed spec fn allocated(&self) -> nat {
        self.alloc_obj_sz as nat
    }

    /// Well-formed: the granted bytes never exceed the capacity.
    pub open spec fn wf(&self) -> bool {
        self.allocated() <= self.capacity()
    }

    fn new(region_sz: usize, reserved_obj_sz: usize) -> (a: StackObjectAllocator)
        ensures
            a.region() == region_sz,
            a.capacity() == reserved_obj_sz,
            a.allocated() == 0,
            a.wf(),
    {
        StackObjectAllocator { region_sz, reserved_obj_sz, alloc_obj_sz: 0 }
    }

    /// The byte capacity reserved for caller objects.
    pub fn reserved_obj_size(&self) -> (r: usize)
        ensures
            r == self.capacity(),
    {
        self.reserved_obj_sz
    }

    /// The bytes already taken by granted allocations.
    pub fn allocated_obj_size(&self) -> (r: usize)
        ensures
            r == self.allocated(),
    {
        self.alloc_obj_sz
    }

    /// Places one object into the attempt's object area.
    ///
    /// The request occupies the object's size rounded up to its alignment.
    /// When it still fits, the object is moved into the arena and an
    /// owning `StackBox` is returned; when it does not, the object itself
    /// is handed back unchanged and nothing about the arena changes. Either
    /// way no earlier allocation is touched.
    pub fn alloc_obj<T>(&mut self, obj: T) -> (r: Result<StackBox<T>, T>)
        requires
            old(self).wf(),
        ensures
            final(self).wf(),
            final(self).region() == old(self).region(),
            final(self).capacity() == old(self).capacity(),
            final(self).allocated() == arena_alloc_step(
                old(self).allocated(),
                old(self).capacity(),
                aligned_size(vstd::layout::size_of::<T>(), vstd::layout::align_of::<T>()),
            ),
            ({
                let request = aligned_size(vstd::layout::size_of::<T>(), vstd::layout::align_of::<T>());
                if old(self).allocated() + request <= old(self).capacity() {
                    r matches Ok(b) && b@ == obj
                } else {
                    r matches Err(o) && o == obj
                }
            }),
    {
        let size: usize = core::mem::size_of::<T>();
        let align: usize = core::mem::align_of::<T>();
        layout_for_type_is_valid::<T>();
        let remnant: usize = size % align;
        let size: usize = if remnant != 0 { size + (align - remnant) } else { size };

        if size > self.reserved_obj_sz - self.alloc_obj_sz {
            Err(obj)
        } else {
            self.alloc_obj_sz = self.alloc_obj_sz + size;
            Ok(StackBox::new(obj))
        }
    }
}

/// An owning handle to exactly one object placed in the arena. Dropping it
/// drops the object; the arena bytes it occupies are reclaimed only when
/// the whole region is reset for the next attempt.
#[derive(Debug)]
pub struct StackBox<T> {
    value: T,
}

impl<T> View for StackBox<T> {
    type V = T;

    closed spec fn view(&self) -> T {
        self.value
    }
}

impl<T> StackBox<T> {
    fn new(value: T) -> (b: StackBox<T>)
        ensures
            b@ == value,
    {
        StackBox { value }
    }

    /// A borrow of the placed object at its fixed place: the object never
    /// moves for as long as the handle lives, which the fork trampoline
    /// needs of the callback address it captures.
    pub fn pin(&self) -> (r: &T)
        ensures
            *r == self@,
    {
        &self.value
    }

    /// Overwrites the placed object in place.
    pub fn set(&mut self, value: T)
        ensures
            final(self)@ == value,
    {
        self.value = value;
    }

    /// Takes the placed object out of the handle.
    pub fn into_inner(self) -> (v: T)
        ensures
            v == self@,
    {
        self.value
    }
}

/// Where one fork attempt stands. `avfork` walks these phases in order:
/// save the caller's signal mask and block every signal, invoke the fork
/// trampoline with the arena-resident callback, restore the saved mask,
/// and only then return the completion pipe's read end and the child pid,
/// or the first error met on the way.
#[derive(Clone, Copy, Debug)]
pub enum AvforkPhase {
    /// Nothing done yet; the caller's signal mask is untouched.
    Ready,
    /// The caller's mask is saved and every signal is blocked.
    Masked,
    /// The trampoline came back; the saved mask is being restored before
    /// the pending outcome is returned.
    Restoring { outcome: Result<(i32, i32), u32> },
    /// The attempt is over: the pipe read end and child pid, or the errno
    /// of the first failed step.
    Returned { outcome: Result<(i32, i32), u32> },
}

/// What the world reports back to the protocol.
#[derive(Clone, Copy, Debug)]
pub enum AvforkEvent {
    /// The caller's mask was saved and every signal is now blocked.
    MaskSaved,
    /// Saving the mask failed; nothing was changed.
    MaskSaveFailed { errno: u32 },
    /// The trampoline forked: the pipe's read end and the child pid.
    TrampolineDone { read_fd: i32, pid: i32 },
    /// The trampoline failed with this errno.
    TrampolineFailed { errno: u32 },
    /// The saved mask is back in place.
    MaskRestored,
}

/// What the protocol asks the world to do next.
#[derive(Clone, Copy, Debug, PartialEq, Eq, Structural)]
pub enum AvforkAction {
    /// Save the caller's signal mask and block every signal.
    SaveMask,
    /// Invoke the fork trampoline on the reserved region.
    InvokeTrampoline,
    /// Restore the saved signal mask.
    RestoreMask,
    /// Hand the recorded outcome to the caller.
    Return,
    /// The event does not belong to this phase; nothing to do.
    Ignore,
}

/// The fork protocol's transition table.
pub open spec fn avfork_spec_step(phase: AvforkPhase, event: AvforkEvent) -> (AvforkPhase, AvforkAction) {
    match (phase, event) {
        (AvforkPhase::Ready, AvforkEvent::MaskSaved) => (
            AvforkPhase::Masked,
            AvforkAction::InvokeTrampoline,
        ),
        (AvforkPhase::Ready, AvforkEvent::MaskSaveFailed { errno }) => (
            AvforkPhase::Returned { outcome: Err(errno) },
            AvforkAction::Return,
        ),
        (AvforkPhase::Masked, AvforkEvent::TrampolineDone { read_fd, pid }) => (
            AvforkPhase::Restoring { outcome: Ok((read_fd, pid)) },
            AvforkAction::RestoreMask,
        ),
        (AvforkPhase::Masked, AvforkEvent::TrampolineFailed { errno }) => (
            AvforkPhase::Restoring { outcome: Err(errno) },
            AvforkAction::RestoreMask,
        ),
        (AvforkPhase::Restoring { outcome }, AvforkEvent::MaskRestored) => (
            AvforkPhase::Returned { outcome },
            AvforkAction::Return,
        ),
        (p, _) => (p, AvforkAction::Ignore),
    }
}

/// Where a fork attempt starts: nothing done, and the first thing to do
/// is to save the caller's signal mask.
pub fn avfork_protocol_start() -> (r: (AvforkPhase, AvforkAction))
    ensures
        r == (AvforkPhase::Ready, AvforkAction::SaveMask),
{
    (AvforkPhase::Ready, AvforkAction::SaveMask)
}

/// One step of the fork protocol: the next phase, and what to do next.
pub fn avfork_protocol_step(phase: AvforkPhase, event: AvforkEvent) -> (r: (AvforkPhase, AvforkAction))
    ensures
        r == avfork_spec_step(phase, event),
{
    match (phase, event) {
        (AvforkPhase::Ready, AvforkEvent::MaskSaved) => (
            AvforkPhase::Masked,
            AvforkAction::InvokeTrampoline,
        ),
        (AvforkPhase::Ready, AvforkEvent::MaskSaveFailed { errno }) => (
            AvforkPhase::Returned { outcome: Err(errno) },
            AvforkAction::Return,
        ),
        (AvforkPhase::Masked, AvforkEvent::TrampolineDone { read_fd, pid }) => (
            AvforkPhase::Restoring { outcome: Ok((read_fd, pid)) },
            AvforkAction::RestoreMask,
        ),
        (AvforkPhase::Masked, AvforkEvent::TrampolineFailed { errno }) => (
            AvforkPhase::Restoring { outcome: Err(errno) },
            AvforkAction::RestoreMask,
        ),
        (AvforkPhase::Restoring { outcome }, AvforkEvent::MaskRestored) => (
            AvforkPhase::Returned { outcome },
            AvforkAction::Return,
        ),
        (p, _) => (p, AvforkAction::Ignore),
    }
}

/// The caller's signal mask is back in place before any outcome is
/// returned: the protocol reaches `Returned` only out of `Restoring`,
/// where the mask restore just happened, or out of `Ready` when saving
/// the mask itself failed and the mask was never changed. This holds on
/// the success path and on every failure path alike.
pub proof fn lemma_mask_restored_before_return(phase: AvforkPhase, event: AvforkEvent)
    requires
        !(phase matches AvforkPhase::Returned { .. }),
        avfork_spec_step(phase, event).0 matches AvforkPhase::Returned { .. },
    ensures
        phase matches AvforkPhase::Restoring { .. }
            || (phase matches AvforkPhase::Ready && event matches AvforkEvent::MaskSaveFailed { .. }),
{
}

/// The phase after a whole run of events, folded through the transition
/// table from `start`.
pub open spec fn avfork_run(start: AvforkPhase, events: Seq<AvforkEvent>) -> AvforkPhase
    decreases events.len(),
{
    if events.len() == 0 {
        start
    } else {
        avfork_spec_step(avfork_run(start, events.drop_last()), events.last()).0
    }
}

/// A clean run returns exactly what the trampoline produced: the pipe's
/// read end and the child pid.
pub proof fn lemma_avfork_success_run(read_fd: i32, pid: i32)
    ensures
        avfork_run(
            AvforkPhase::Ready,
            seq![
                AvforkEvent::MaskSaved,
                AvforkEvent::TrampolineDone { read_fd, pid },
                AvforkEvent::MaskRestored,
            ],
        ) == (AvforkPhase::Returned { outcome: Ok::<(i32, i32), u32>((read_fd, pid)) }),
{
    let e3 = seq![
        AvforkEvent::MaskSaved,
        AvforkEvent::TrampolineDone { read_fd, pid },
        AvforkEvent::MaskRestored,
    ];
    let e2 = seq![AvforkEvent::MaskSaved, AvforkEvent::TrampolineDone { read_fd, pid }];
    let e1 = seq![AvforkEvent::MaskSaved];
    let e0 = Seq::<AvforkEvent>::empty();
    assert(e3.drop_last() =~= e2);
    assert(e2.drop_last() =~= e1);
    assert(e1.drop_last() =~= e0);
    assert(avfork_run(AvforkPhase::Ready, e0) == AvforkPhase::Ready);
    assert(avfork_run(AvforkPhase::Ready, e1) == AvforkPhase::Masked);
    assert(avfork_run(AvforkPhase::Ready, e2)
        == (AvforkPhase::Restoring { outcome: Ok::<(i32, i32), u32>((read_fd, pid)) }));
}

/// A run whose trampoline failed restores the mask and returns that
/// errno, unchanged.
pub proof fn lemma_avfork_failure_run(errno: u32)
    ensures
        avfork_run(
            AvforkPhase::Ready,
            seq![
                AvforkEvent::MaskSaved,
                AvforkEvent::TrampolineFailed { errno },
                AvforkEvent::MaskRestored,
            ],
        ) == (AvforkPhase::Returned { outcome: Err::<(i32, i32), u32>(errno) }),
{
    let e3 = seq![
        AvforkEvent::MaskSaved,
        AvforkEvent::TrampolineFailed { errno },
        AvforkEvent::MaskRestored,
    ];
    let e2 = seq![AvforkEvent::MaskSaved, AvforkEvent::TrampolineFailed { errno }];
    let e1 = seq![AvforkEvent::MaskSaved];
    let e0 = Seq::<AvforkEvent>::empty();
    assert(e3.drop_last() =~= e2);
    assert(e2.drop_last() =~= e1);
    assert(e1.drop_last() =~= e0);
    assert(avfork_run(AvforkPhase::Ready, e0) == AvforkPhase::Ready);
    assert(avfork_run(AvforkPhase::Ready, e1) == AvforkPhase::Masked);
    assert(avfork_run(AvforkPhase::Ready, e2)
        == (AvforkPhase::Restoring { outcome: Err::<(i32, i32), u32>(errno) }));
}

} // verus!
