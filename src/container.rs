//! Per-process state that a capsule keeps, one slot per process.
//!
//! A slot is tied to one incarnation of its process, named by an `AppId`.
//! It is made on first access, and an `AppId` of a restarted process does not
//! see what its earlier incarnation stored: that entry is replaced on the
//! next access. The container refers to processes only by identity.
use vstd::prelude::*;
use crate::process::{AppId, FaultResponse, Process};

verus! {

pub struct Container<T> {
    generations: Vec<Option<u64>>,
    values: Vec<T>,
}

impl<T> Container<T> {
    pub closed spec fn num_slots(&self) -> nat {
        self.generations.len() as nat
    }

    pub closed spec fn wf(&self) -> bool {
        self.generations.len() == self.values.len()
    }

    /// The state stored for `app`, if its incarnation has one.
    pub closed spec fn entry(&self, app: AppId) -> Option<T> {
        if app.index < self.generations.len() && self.generations@[app.index as int] == Some(
            app.generation,
        ) {
            Some(self.values@[app.index as int])
        } else {
            None
        }
    }

    /// A container of `num_slots` empty slots.
    pub fn new(num_slots: usize) -> (r: Self) where T: Default
        ensures
            r.wf(),
            r.num_slots() == num_slots,
            forall|app: AppId| #[trigger] r.entry(app) is None,
    {
        let mut generations: Vec<Option<u64>> = Vec::new();
        let mut values: Vec<T> = Vec::new();
        let mut i: usize = 0;
        while i < num_slots
            invariant
                i <= num_slots,
                generations.len() == i,
                values.len() == i,
                forall|k: int| 0 <= k < i ==> generations@[k] is None,
            decreases num_slots - i,
        {
            generations.push(None);
            values.push(T::default());
            i = i + 1;
        }
        Container { generations, values }
    }

    pub fn get_num_slots(&self) -> (r: usize)
        ensures
            r == self.num_slots(),
    {
        self.generations.len()
    }

    /// The state stored for `app`, if any.
    pub fn get(&self, app: AppId) -> (r: Option<&T>)
        requires
            self.wf(),
        ensures
            match r {
                Some(v) => self.entry(app) == Some(*v),
                None => self.entry(app) is None,
            },
    {
        if app.index < self.generations.len() {
            match self.generations[app.index] {
                Some(g) => if g == app.generation {
                    return Some(&self.values[app.index]);
                },
                None => {},
            }
        }
        None
    }

    /// The state of `app`, made from `init` if `app` has none yet (a fresh
    /// process, or a restarted one whose earlier state is discarded). Other
    /// processes' state is untouched.
    pub fn enter(&mut self, app: AppId, init: T) -> (r: &mut T)
        requires
            old(self).wf(),
            app.index < old(self).num_slots(),
        ensures
            final(self).wf(),
            final(self).num_slots() == old(self).num_slots(),
            *r == match old(self).entry(app) {
                Some(v) => v,
                None => init,
            },
            final(self).entry(app) == Some(*final(r)),
            forall|other: AppId|
                other.index != app.index ==> #[trigger] final(self).entry(other)
                    == old(self).entry(other),
            forall|other: AppId|
                other.index == app.index && other.generation != app.generation
                    ==> #[trigger] final(self).entry(other) is None,
    {
        let live = match self.generations[app.index] {
            Some(g) => g == app.generation,
            None => false,
        };
        if !live {
            self.generations.set(app.index, Some(app.generation));
            self.values.set(app.index, init);
        }
        &mut self.values[app.index]
    }
}

/// A restart hides what a capsule stored for the process. If the slot
/// `index` of `c` holds nothing for incarnations later than the process
/// `pre`, then after `pre` was restarted into `post` its new identity finds
/// no entry.
pub proof fn lemma_restart_invalidates<T>(c: Container<T>, pre: Process, post: Process, index: usize)
    requires
        pre.fault_response() == FaultResponse::Restart,
        post.fault_applied(pre),
        post.restarts() <= u64::MAX,
        forall|g: u64| g > pre.restarts() ==> #[trigger] c.entry(AppId { index, generation: g }) is None,
    ensures
        c.entry(AppId { index, generation: post.restarts() as u64 }) is None,
{
    assert(post.restarts() == pre.restarts() + 1);
}

} // verus!
