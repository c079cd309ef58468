//! Process-local task counters.
//!
//! Counters wrap on overflow, as a fetch-and-add on a machine word does.

use vstd::prelude::*;

verus! {

/// One step of a wrapping counter.
pub open spec fn wrap_inc(x: u64) -> u64 {
    if x == u64::MAX {
        0
    } else {
        (x + 1) as u64
    }
}

/// Counts of tasks created, completed, failed and cancelled since start-up
/// (or since the last reset or sync).
#[derive(Debug)]
pub struct Metrics {
    pub tasks_created: u64,
    pub tasks_completed: u64,
    pub tasks_failed: u64,
    pub tasks_cancelled: u64,
}

impl Metrics {
    pub fn new() -> (m: Metrics)
        ensures
            m.tasks_created == 0,
            m.tasks_completed == 0,
            m.tasks_failed == 0,
            m.tasks_cancelled == 0,
    {
        Metrics { tasks_created: 0, tasks_completed: 0, tasks_failed: 0, tasks_cancelled: 0 }
    }

    pub fn increment_created(&mut self)
        ensures
            final(self).tasks_created == wrap_inc(old(self).tasks_created),
            final(self).tasks_completed == old(self).tasks_completed,
            final(self).tasks_failed == old(self).tasks_failed,
            final(self).tasks_cancelled == old(self).tasks_cancelled,
    {
        self.tasks_created = if self.tasks_created == u64::MAX {
            0
        } else {
            self.tasks_created + 1
        };
    }

    pub fn increment_completed(&mut self)
        ensures
            final(self).tasks_completed == wrap_inc(old(self).tasks_completed),
            final(self).tasks_created == old(self).tasks_created,
            final(self).tasks_failed == old(self).tasks_failed,
            final(self).tasks_cancelled == old(self).tasks_cancelled,
    {
        self.tasks_completed = if self.tasks_completed == u64::MAX {
            0
        } else {
            self.tasks_completed + 1
        };
    }

    pub fn increment_failed(&mut self)
        ensures
            final(self).tasks_failed == wrap_inc(old(self).tasks_failed),
            final(self).tasks_created == old(self).tasks_created,
            final(self).tasks_completed == old(self).tasks_completed,
            final(self).tasks_cancelled == old(self).tasks_cancelled,
    {
        self.tasks_failed = if self.tasks_failed == u64::MAX {
            0
        } else {
            self.tasks_failed + 1
        };
    }

    pub fn increment_cancelled(&mut self)
        ensures
            final(self).tasks_cancelled == wrap_inc(old(self).tasks_cancelled),
            final(self).tasks_created == old(self).tasks_created,
            final(self).tasks_completed == old(self).tasks_completed,
            final(self).tasks_failed == old(self).tasks_failed,
    {
        self.tasks_cancelled = if self.tasks_cancelled == u64::MAX {
            0
        } else {
            self.tasks_cancelled + 1
        };
    }

    pub fn get_created(&self) -> (r: u64)
        ensures
            r == self.tasks_created,
    {
        self.tasks_created
    }

    pub fn get_completed(&self) -> (r: u64)
        ensures
            r == self.tasks_completed,
    {
        self.tasks_completed
    }

    pub fn get_failed(&self) -> (r: u64)
        ensures
            r == self.tasks_failed,
    {
        self.tasks_failed
    }

    pub fn get_cancelled(&self) -> (r: u64)
        ensures
            r == self.tasks_cancelled,
    {
        self.tasks_cancelled
    }

    pub fn set_created(&mut self, value: u64)
        ensures
            final(self).tasks_created == value,
            final(self).tasks_completed == old(self).tasks_completed,
            final(self).tasks_failed == old(self).tasks_failed,
            final(self).tasks_cancelled == old(self).tasks_cancelled,
    {
        self.tasks_created = value;
    }

    pub fn set_completed(&mut self, value: u64)
        ensures
            final(self).tasks_completed == value,
            final(self).tasks_created == old(self).tasks_created,
            final(self).tasks_failed == old(self).tasks_failed,
            final(self).tasks_cancelled == old(self).tasks_cancelled,
    {
        self.tasks_completed = value;
    }

    pub fn set_failed(&mut self, value: u64)
        ensures
            final(self).tasks_failed == value,
            final(self).tasks_created == old(self).tasks_created,
            final(self).tasks_completed == old(self).tasks_completed,
            final(self).tasks_cancelled == old(self).tasks_cancelled,
    {
        self.tasks_failed = value;
    }

    pub fn set_cancelled(&mut self, value: u64)
        ensures
            final(self).tasks_cancelled == value,
            final(self).tasks_created == old(self).tasks_created,
            final(self).tasks_completed == old(self).tasks_completed,
            final(self).tasks_failed == old(self).tasks_failed,
    {
        self.tasks_cancelled = value;
    }

    pub fn reset_all(&mut self)
        ensures
            final(self).tasks_created == 0,
            final(self).tasks_completed == 0,
            final(self).tasks_failed == 0,
            final(self).tasks_cancelled == 0,
    {
        self.tasks_created = 0;
        self.tasks_completed = 0;
        self.tasks_failed = 0;
        self.tasks_cancelled = 0;
    }
}

} // verus!
