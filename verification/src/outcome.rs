//! Faults and the final outcome of a launch.

use vstd::prelude::*;
use vstd::string::StringExecFns;

verus! {

/// The step of the bootstrap that failed. Every fault is terminal: the design
/// performs no retries, no rollback and no cleanup of its own.
#[derive(Clone, Copy, PartialEq, Eq, Structural, Debug)]
pub enum Fault {
    /// The kernel refused to create the isolated child (bad flags, missing
    /// privilege, resource limits).
    Launch,
    /// The private procfs could not be mounted inside the new namespace.
    Mount,
    /// The shell image could not be loaded in place of the initializer.
    Exec,
    /// The parent failed to reap the child.
    Wait,
}

impl Fault {
    /// A fixed description of the fault, for the unverified front end to print.
    pub fn message(&self) -> (m: String)
        ensures
            self is Launch ==> m@ == "namespace creation failed"@,
            self is Mount ==> m@ == "private procfs mount failed"@,
            self is Exec ==> m@ == "shell image replacement failed"@,
            self is Wait ==> m@ == "waiting for the child failed"@,
    {
        match self {
            Fault::Launch => String::from_str("namespace creation failed"),
            Fault::Mount => String::from_str("private procfs mount failed"),
            Fault::Exec => String::from_str("shell image replacement failed"),
            Fault::Wait => String::from_str("waiting for the child failed"),
        }
    }
}

/// How a whole launch ended, as seen by the parent.
#[derive(Clone, Copy, PartialEq, Eq, Structural, Debug)]
pub enum ExitOutcome {
    /// The child was created and reaped; `status` is the exit status the wait
    /// call collected, propagated as the program's own exit code.
    Completed { status: i32 },
    /// A step of the bootstrap failed; nothing was retried.
    Failed { fault: Fault },
}

} // verus!
