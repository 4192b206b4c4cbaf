//! Exit statuses of reaped children and their delivery to waiters.
//!
//! The reaping task learns of exited children through a signal event
//! source; because signal deliveries coalesce, the payload is discarded
//! and every currently reapable child is collected on each wake-up. Each
//! reaped child yields one immutable `ExitInfo`, keyed by pid in an
//! `ExitTable`; a waiter for a pid receives exactly that child's record,
//! once, whether it registered before or after the child exited.

use vstd::prelude::*;

use std::collections::HashMap;

verus! {

broadcast use vstd::std_specs::hash::group_hash_axioms;

/// A wait-status reports a normal exit: the low seven bits are clear.
pub open spec fn wstatus_exited(wstatus: i32) -> bool {
    wstatus & 0x7f == 0
}

/// The exit code of a normally exited child: the second byte.
pub open spec fn wstatus_exit_status(wstatus: i32) -> i32 {
    (wstatus >> 8) & 0xff
}

/// A wait-status reports termination by a signal: the low seven bits are
/// neither clear (normal exit) nor all set (a stopped child).
pub open spec fn wstatus_signaled(wstatus: i32) -> bool {
    wstatus & 0x7f != 0 && wstatus & 0x7f != 0x7f
}

/// The signal that terminated the child: the low seven bits.
pub open spec fn wstatus_term_sig(wstatus: i32) -> i32 {
    wstatus & 0x7f
}

/// A wait-status never reports both a normal exit and termination by a
/// signal: the record decomposes into one or the other.
pub proof fn lemma_exited_xor_signaled(wstatus: i32)
    ensures
        !(wstatus_exited(wstatus) && wstatus_signaled(wstatus)),
{
}

/// The exit code of a normally exited child is one byte: between 0
/// and 255.
pub proof fn lemma_exit_status_range(wstatus: i32)
    ensures
        0 <= wstatus_exit_status(wstatus) <= 255,
{
    assert(0 <= (wstatus >> 8) & 0xff <= 255) by (bit_vector);
}

/// A terminating signal number fits the low seven bits: between 0
/// and 127.
pub proof fn lemma_term_sig_range(wstatus: i32)
    ensures
        0 <= wstatus_term_sig(wstatus) <= 127,
{
    assert(0 <= wstatus & 0x7f <= 127) by (bit_vector);
}

/// The record of one reaped child, created once when the child is reaped
/// and never changed after.
#[derive(Clone, Copy, Debug, PartialEq, Eq, Structural)]
pub struct ExitInfo {
    uid: u32,
    wstatus: i32,
    utime: i64,
    stime: i64,
}

impl ExitInfo {
    /// The uid the child ran under when it exited.
    pub closed spec fn spec_uid(&self) -> u32 {
        self.uid
    }

    /// The raw wait-status the kernel reported.
    pub closed spec fn spec_wstatus(&self) -> i32 {
        self.wstatus
    }

    /// The user time the child consumed.
    pub closed spec fn spec_utime(&self) -> i64 {
        self.utime
    }

    /// The system time the child consumed.
    pub closed spec fn spec_stime(&self) -> i64 {
        self.stime
    }

    /// The record of one reaped child, from the fields the reap syscall
    /// reported.
    pub fn new(uid: u32, wstatus: i32, utime: i64, stime: i64) -> (r: ExitInfo)
        ensures
            r.spec_uid() == uid,
            r.spec_wstatus() == wstatus,
            r.spec_utime() == utime,
            r.spec_stime() == stime,
    {
        ExitInfo { uid, wstatus, utime, stime }
    }

    /// uid of the child when it exited.
    pub fn get_uid(&self) -> (r: u32)
        ensures
            r == self.spec_uid(),
    {
        self.uid
    }

    /// User time consumed by the child.
    pub fn get_utime(&self) -> (r: i64)
        ensures
            r == self.spec_utime(),
    {
        self.utime
    }

    /// System time consumed by the child.
    pub fn get_stime(&self) -> (r: i64)
        ensures
            r == self.spec_stime(),
    {
        self.stime
    }

    /// The exit code, when the child exited normally rather than being
    /// terminated by a signal.
    pub fn get_exit_status(&self) -> (r: Option<i32>)
        ensures
            wstatus_exited(self.spec_wstatus()) ==> r == Some(wstatus_exit_status(self.spec_wstatus())),
            !wstatus_exited(self.spec_wstatus()) ==> r is None,
    {
        if self.wstatus & 0x7f == 0 {
            Some((self.wstatus >> 8) & 0xff)
        } else {
            None
        }
    }

    /// The signal that terminated the child, when it was killed by one.
    pub fn get_term_sig(&self) -> (r: Option<i32>)
        ensures
            wstatus_signaled(self.spec_wstatus()) ==> r == Some(wstatus_term_sig(self.spec_wstatus())),
            !wstatus_signaled(self.spec_wstatus()) ==> r is None,
    {
        let low = self.wstatus & 0x7f;
        if low != 0 && low != 0x7f {
            Some(low)
        } else {
            None
        }
    }
}

/// The table a whole batch of reaped children leaves behind: each child's
/// record inserted under its pid, in reaping order.
pub open spec fn insert_all(
    table: Map<i32, ExitInfo>,
    reaped: Seq<(i32, ExitInfo)>,
) -> Map<i32, ExitInfo>
    decreases reaped.len(),
{
    if reaped.len() == 0 {
        table
    } else {
        insert_all(table, reaped.drop_last()).insert(reaped.last().0, reaped.last().1)
    }
}

/// Exit delivery correctness, the reaped side: when the reaped children
/// have distinct pids, the table maps every one of those pids to exactly
/// its own child's record - none lost, none cross-delivered.
pub proof fn lemma_exit_delivery(
    table: Map<i32, ExitInfo>,
    reaped: Seq<(i32, ExitInfo)>,
    i: int,
)
    requires
        0 <= i < reaped.len(),
        forall|j: int, k: int| 0 <= j < k < reaped.len() ==> (#[trigger] reaped[j]).0 != (#[trigger] reaped[k]).0,
    ensures
        insert_all(table, reaped).contains_key(reaped[i].0),
        insert_all(table, reaped)[reaped[i].0] == reaped[i].1,
    decreases reaped.len(),
{
    if i < reaped.len() - 1 {
        assert(reaped.drop_last()[i] == reaped[i]);
        lemma_exit_delivery(table, reaped.drop_last(), i);
        assert(reaped.last() == reaped[reaped.len() - 1]);
        assert(reaped[i].0 != reaped[reaped.len() - 1].0);
    }
}

/// Exit delivery correctness, the bystander side: a pid no reaped child
/// bears keeps exactly the entry it had before the batch.
pub proof fn lemma_exit_delivery_frame(
    table: Map<i32, ExitInfo>,
    reaped: Seq<(i32, ExitInfo)>,
    pid: i32,
)
    requires
        forall|j: int| 0 <= j < reaped.len() ==> (#[trigger] reaped[j]).0 != pid,
    ensures
        insert_all(table, reaped).contains_key(pid) == table.contains_key(pid),
        table.contains_key(pid) ==> insert_all(table, reaped)[pid] == table[pid],
    decreases reaped.len(),
{
    if reaped.len() > 0 {
        assert(forall|j: int| 0 <= j < reaped.drop_last().len()
            ==> (#[trigger] reaped.drop_last()[j]).0 != pid);
        lemma_exit_delivery_frame(table, reaped.drop_last(), pid);
        assert(reaped.last() == reaped[reaped.len() - 1]);
    }
}

/// The pid-to-record table the reaping task fills and waiters drain. An
/// entry appears when its child is reaped and is removed when delivered;
/// its abstract content is the map from pid to exit record.
pub struct ExitTable {
    entries: HashMap<i32, ExitInfo>,
}

impl View for ExitTable {
    type V = Map<i32, ExitInfo>;

    closed spec fn view(&self) -> Map<i32, ExitInfo> {
        self.entries@
    }
}

impl ExitTable {
    /// An empty table: no child reaped yet.
    pub fn new() -> (t: ExitTable)
        ensures
            t@ == Map::<i32, ExitInfo>::empty(),
    {
        ExitTable { entries: HashMap::new() }
    }

    /// Records one reaped child under its pid.
    pub fn insert_exit(&mut self, pid: i32, info: ExitInfo)
        ensures
            final(self)@ == old(self)@.insert(pid, info),
    {
        self.entries.insert(pid, info);
    }

    /// Records a whole batch of reaped children, in reaping order.
    pub fn record_reaped(&mut self, reaped: &Vec<(i32, ExitInfo)>)
        ensures
            final(self)@ == insert_all(old(self)@, reaped@),
    {
        let mut i: usize = 0;
        while i < reaped.len()
            invariant
                i <= reaped.len(),
                self@ == insert_all(old(self)@, reaped@.take(i as int)),
            decreases reaped.len() - i,
        {
            let (pid, info) = reaped[i];
            self.entries.insert(pid, info);
            proof {
                assert(reaped@.take(i + 1).drop_last() =~= reaped@.take(i as int));
                assert(reaped@.take(i + 1).last() == reaped@[i as int]);
            }
            i = i + 1;
        }
        proof {
            assert(reaped@.take(reaped@.len() as int) =~= reaped@);
        }
    }

    /// Whether a child's record is waiting under this pid, and which.
    pub fn query(&self, pid: i32) -> (r: Option<ExitInfo>)
        ensures
            self@.contains_key(pid) ==> r == Some(self@[pid]),
            !self@.contains_key(pid) ==> r is None,
    {
        match self.entries.get(&pid) {
            Some(info) => Some(*info),
            None => None,
        }
    }

    /// Delivers the record waiting under this pid, removing it: a child's
    /// exit is delivered once. Nothing changes when no record is waiting.
    pub fn take_exit(&mut self, pid: i32) -> (r: Option<ExitInfo>)
        ensures
            old(self)@.contains_key(pid) ==> r == Some(old(self)@[pid])
                && final(self)@ == old(self)@.remove(pid),
            !old(self)@.contains_key(pid) ==> r is None && final(self)@ == old(self)@,
    {
        self.entries.remove(&pid)
    }
}

} // verus!
