//! Decisions of the kernel's main loop: service interrupts first, otherwise
//! run the next ready process in round-robin order, otherwise sleep. The loop
//! itself, which performs each action and reports how a run ended, belongs to
//! the board.
use vstd::prelude::*;
use crate::process::{AppId, FaultAction, FaultResponse, Process, RunKind, RunOutcome};

verus! {

#[derive(Clone, Copy, Debug, PartialEq, Eq, Structural)]
pub enum LoopAction {
    /// Drain the pending interrupt queue.
    ServiceInterrupts,
    /// Run the process in this slot until it yields, faults or its quantum
    /// expires.
    Run(usize),
    /// Nothing to do: sleep until an interrupt.
    Sleep,
}

/// The process table and where the round-robin scan resumes.
pub struct Kernel {
    processes: Vec<Process>,
    next: usize,
}

/// How many steps after slot `from` the scan reaches slot `j`, in a table of
/// `n` slots.
pub open spec fn scan_distance(from: nat, n: nat, j: nat) -> nat {
    if j >= from {
        (j - from) as nat
    } else {
        (j + n - from) as nat
    }
}

impl Kernel {
    pub closed spec fn view(&self) -> Seq<Process> {
        self.processes@
    }

    /// The slot where the next scan for a ready process starts.
    pub closed spec fn next(&self) -> nat {
        self.next as nat
    }

    pub closed spec fn wf(&self) -> bool {
        &&& forall|i: int| 0 <= i < self.processes@.len() ==> (#[trigger] self.processes@[i]).wf()
        &&& (self.next < self.processes@.len() || self.next == 0)
    }

    /// The table at boot.
    pub fn new(processes: Vec<Process>) -> (r: Kernel)
        requires
            forall|i: int| 0 <= i < processes@.len() ==> (#[trigger] processes@[i]).wf(),
        ensures
            r.wf(),
            r@ == processes@,
            r.next() == 0,
    {
        Kernel { processes, next: 0 }
    }

    pub fn num_processes(&self) -> (r: usize)
        ensures
            r == self@.len(),
    {
        self.processes.len()
    }

    pub fn process(&self, idx: usize) -> (r: &Process)
        requires
            idx < self@.len(),
        ensures
            *r == self@[idx as int],
    {
        &self.processes[idx]
    }

    /// The identity of the current incarnation of the process in slot `idx`.
    pub fn app_id(&self, idx: usize) -> (r: AppId)
        requires
            idx < self@.len(),
        ensures
            r == (AppId { index: idx, generation: self@[idx as int].restarts() as u64 }),
    {
        AppId { index: idx, generation: self.processes[idx].restart_count() }
    }

    /// What the main loop does next: service interrupts while any are
    /// pending; else run the first ready process at or after `next`,
    /// wrapping around; else sleep.
    pub fn next_action(&self, interrupts_pending: bool) -> (r: LoopAction)
        requires
            self.wf(),
        ensures
            interrupts_pending <==> r == LoopAction::ServiceInterrupts,
            r matches LoopAction::Run(i) ==> {
                &&& i < self@.len()
                &&& self@[i as int].ready()
                &&& forall|j: int|
                    0 <= j < self@.len() && scan_distance(self.next(), self@.len(), j as nat)
                        < scan_distance(self.next(), self@.len(), i as nat) ==> !(
                    #[trigger] self@[j]).ready()
            },
            r == LoopAction::Sleep ==> forall|j: int|
                0 <= j < self@.len() ==> !(#[trigger] self@[j]).ready(),
    {
        if interrupts_pending {
            return LoopAction::ServiceInterrupts;
        }
        let n = self.processes.len();
        let mut k: usize = 0;
        while k < n
            invariant
                self.wf(),
                !interrupts_pending,
                n == self@.len(),
                k <= n,
                forall|j: int|
                    0 <= j < n && scan_distance(self.next(), n as nat, j as nat) < k ==> !(
                    #[trigger] self@[j]).ready(),
            decreases n - k,
        {
            let j = if self.next < n - k {
                self.next + k
            } else {
                k - (n - self.next)
            };
            assert(scan_distance(self.next(), n as nat, j as nat) == k);
            if self.processes[j].is_ready() {
                return LoopAction::Run(j);
            }
            k = k + 1;
        }
        assert forall|j: int| 0 <= j < n implies !(#[trigger] self@[j]).ready() by {
            assert(scan_distance(self.next(), n as nat, j as nat) < n);
        }
        LoopAction::Sleep
    }

    /// Enters the ready process in slot `idx`; only that process changes.
    pub fn run(&mut self, idx: usize) -> (r: RunKind)
        requires
            old(self).wf(),
            idx < old(self)@.len(),
            old(self)@[idx as int].ready(),
        ensures
            final(self).wf(),
            final(self).next() == old(self).next(),
            final(self)@.len() == old(self)@.len(),
            forall|j: int| 0 <= j < old(self)@.len() && j != idx ==> #[trigger] final(self)@[j] == old(self)@[j],
            final(self)@[idx as int].resumed_from(old(self)@[idx as int], r),
    {
        let mut p = self.processes.remove(idx);
        let r = p.resume();
        self.processes.insert(idx, p);
        r
    }

    /// Records how the run of slot `idx` ended and moves the scan past it.
    pub fn run_stopped(&mut self, idx: usize, outcome: RunOutcome) -> (r: Option<FaultAction>)
        requires
            old(self).wf(),
            idx < old(self)@.len(),
            outcome == RunOutcome::Faulted && old(self)@[idx as int].fault_response()
                == FaultResponse::Restart ==> old(self)@[idx as int].restarts() < u64::MAX,
        ensures
            final(self).wf(),
            final(self).next() == if idx + 1 == old(self)@.len() { 0 } else { idx + 1 },
            final(self)@.len() == old(self)@.len(),
            forall|j: int| 0 <= j < old(self)@.len() && j != idx ==> #[trigger] final(self)@[j] == old(self)@[j],
            final(self)@[idx as int].stopped_from(old(self)@[idx as int], outcome, r),
    {
        let n = self.processes.len();
        let mut p = self.processes.remove(idx);
        let r = p.run_stopped(outcome);
        self.processes.insert(idx, p);
        self.next = if idx + 1 == n {
            0
        } else {
            idx + 1
        };
        r
    }

    /// Queues a callback for the process in slot `idx`.
    pub fn schedule_callback(&mut self, idx: usize) -> (r: bool)
        requires
            old(self).wf(),
            idx < old(self)@.len(),
        ensures
            final(self).wf(),
            final(self).next() == old(self).next(),
            final(self)@.len() == old(self)@.len(),
            forall|j: int| 0 <= j < old(self)@.len() && j != idx ==> #[trigger] final(self)@[j] == old(self)@[j],
            final(self)@[idx as int].task_queued_from(old(self)@[idx as int], r),
    {
        let mut p = self.processes.remove(idx);
        let r = p.enqueue_task();
        self.processes.insert(idx, p);
        r
    }
}

} // verus!
