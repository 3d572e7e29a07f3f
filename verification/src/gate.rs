//! The admission gate of the checker pool.
//!
//! At most `capacity` check requests may be in flight at once. `Gate`
//! is the model of that discipline: a task is admitted only while fewer
//! than `capacity` tasks are in flight, and every admitted task releases
//! its slot when it completes. The application enforces the same bound
//! at run time with an asynchronous counting semaphore; this type states
//! and proves the discipline itself.

use vstd::prelude::*;

verus! {

/// A counting gate of fixed capacity. `in_flight` is the number of
/// admitted, not yet completed tasks; it never exceeds `capacity`.
pub struct Gate {
    capacity: usize,
    in_flight: usize,
}

impl Gate {
    /// The concurrency limit this gate was created with.
    pub closed spec fn spec_capacity(&self) -> nat {
        self.capacity as nat
    }

    /// How many tasks are currently admitted and not yet completed.
    pub closed spec fn spec_in_flight(&self) -> nat {
        self.in_flight as nat
    }

    /// The concurrency bound: never more than `capacity` tasks in flight.
    pub open spec fn wf(&self) -> bool {
        self.spec_in_flight() <= self.spec_capacity()
    }

    /// A fresh gate with the given positive capacity and nothing in
    /// flight.
    pub fn new(capacity: usize) -> (r: Gate)
        requires
            capacity >= 1,
        ensures
            r.wf(),
            r.spec_capacity() == capacity,
            r.spec_in_flight() == 0,
    {
        Gate { capacity, in_flight: 0 }
    }

    /// Admits one task if a slot is free: the task count grows by one
    /// and stays within the capacity. With every slot taken, nothing is
    /// admitted and nothing changes.
    pub fn try_acquire(&mut self) -> (r: bool)
        requires
            old(self).wf(),
        ensures
            final(self).wf(),
            final(self).spec_capacity() == old(self).spec_capacity(),
            r == (old(self).spec_in_flight() < old(self).spec_capacity()),
            r ==> final(self).spec_in_flight() == old(self).spec_in_flight() + 1,
            !r ==> final(self).spec_in_flight() == old(self).spec_in_flight(),
    {
        if self.in_flight < self.capacity {
            self.in_flight = self.in_flight + 1;
            true
        } else {
            false
        }
    }

    /// Completes one admitted task: its slot is freed.
    pub fn release(&mut self)
        requires
            old(self).wf(),
            old(self).spec_in_flight() >= 1,
        ensures
            final(self).wf(),
            final(self).spec_capacity() == old(self).spec_capacity(),
            final(self).spec_in_flight() == old(self).spec_in_flight() - 1,
    {
        self.in_flight = self.in_flight - 1;
    }
}

} // verus!
