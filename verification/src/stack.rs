//! The side-table that travels with a task.

use vstd::prelude::*;

verus! {

/// What a task carries for its users: fixed when the task is made.
#[derive(Clone, Copy, Debug, PartialEq, Eq)]
pub struct ProcStack {
    /// The identifier that the task's owner gave it.
    pub pid: u64,
}

impl ProcStack {
    /// A side-table with the given identifier.
    pub fn new(pid: u64) -> (s: Self)
        ensures
            s.pid == pid,
    {
        ProcStack { pid }
    }

    /// The identifier of the task.
    pub fn get_pid(&self) -> (pid: u64)
        ensures
            pid == self.pid,
    {
        self.pid
    }
}

} // verus!
