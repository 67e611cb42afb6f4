//! The isolation launcher: the parent side of the bootstrap. It decides what
//! to ask of the kernel's process-creation primitive — the namespace flags,
//! the stack, the termination signal — and what each kernel answer means:
//! wait for a created child, or stop on a failed creation.

use vstd::prelude::*;
use crate::config::LaunchConfig;
use crate::flags::{
    has_bit, namespace_flags, CloneFlagSet, CHILD_TERMINATION_SIGNAL, NEW_HOSTNAME_NS_BIT,
    NEW_MOUNT_NS_BIT, NEW_PID_NS_BIT,
};
use crate::outcome::{ExitOutcome, Fault};

verus! {

/// Everything the process-creation primitive is invoked with, besides the
/// child entry function: the namespace flags, the size of the execution
/// stack, and the signal that announces the child's termination.
pub struct LaunchPlan {
    /// Which isolation domains the child receives.
    pub flags: CloneFlagSet,
    /// Size in bytes of the execution stack to allocate, zero-initialized.
    /// The region must stay valid and unmoved until the child has started.
    pub stack_size: usize,
    /// Signal the kernel delivers on child termination, so that a
    /// synchronous wait can collect the exit status.
    pub termination_signal: i32,
}

/// The plan of a launch under configuration `c`: a child in fresh hostname,
/// process-ID and mount namespaces, on a stack of the configured size, with
/// child-termination notification requested.
pub fn build_launch_plan(c: &LaunchConfig) -> (p: LaunchPlan)
    ensures
        p.stack_size == c.stack_size,
        p.termination_signal == CHILD_TERMINATION_SIGNAL,
        p.flags.bits == NEW_HOSTNAME_NS_BIT | NEW_PID_NS_BIT | NEW_MOUNT_NS_BIT,
        has_bit(p.flags.bits, NEW_HOSTNAME_NS_BIT),
        has_bit(p.flags.bits, NEW_PID_NS_BIT),
        has_bit(p.flags.bits, NEW_MOUNT_NS_BIT),
{
    LaunchPlan {
        flags: namespace_flags(),
        stack_size: c.stack_size,
        termination_signal: CHILD_TERMINATION_SIGNAL,
    }
}

/// Allocate the zero-initialized execution stack of a launch. The caller must
/// keep the returned region alive and unmoved until the new process has
/// started executing, since the new process initially runs on this memory.
pub fn allocate_stack(size: usize) -> (stack: Vec<u8>)
    ensures
        stack@.len() == size,
        forall|i: int| 0 <= i < size ==> stack@[i] == 0,
{
    let mut stack: Vec<u8> = Vec::new();
    while stack.len() < size
        invariant
            stack@.len() <= size,
            forall|i: int| 0 <= i < stack@.len() ==> stack@[i] == 0,
        decreases size - stack.len(),
    {
        stack.push(0u8);
    }
    stack
}

/// What the launcher does once the process-creation primitive has answered.
#[derive(Clone, Copy, PartialEq, Eq, Structural, Debug)]
pub enum CloneDecision {
    /// A child was created: block until it terminates.
    AwaitChild { pid: i32 },
    /// No child was created: stop at once with this outcome. No retry.
    Abandon { outcome: ExitOutcome },
}

/// Interpret the answer of the process-creation primitive: a child handle
/// means wait for that child; an error means the launch failed and the child
/// was never created.
pub fn on_clone_result(r: Result<i32, i32>) -> (d: CloneDecision)
    ensures
        r matches Ok(pid) ==> d == (CloneDecision::AwaitChild { pid }),
        r is Err ==> d == (CloneDecision::Abandon {
            outcome: ExitOutcome::Failed { fault: Fault::Launch },
        }),
{
    match r {
        Ok(pid) => CloneDecision::AwaitChild { pid },
        Err(_) => CloneDecision::Abandon { outcome: ExitOutcome::Failed { fault: Fault::Launch } },
    }
}

/// Interpret the answer of the wait primitive: the collected exit status is
/// propagated as the program's own outcome; a failed wait is a fault.
pub fn on_wait_result(r: Result<i32, i32>) -> (o: ExitOutcome)
    ensures
        r matches Ok(status) ==> o == (ExitOutcome::Completed { status }),
        r is Err ==> o == (ExitOutcome::Failed { fault: Fault::Wait }),
{
    match r {
        Ok(status) => ExitOutcome::Completed { status },
        Err(_) => ExitOutcome::Failed { fault: Fault::Wait },
    }
}

/// The outcome of one whole launch, as a function of the two kernel answers
/// of that launch alone: the creation answer, and — consulted only when a
/// child exists — the wait answer.
pub open spec fn launch_outcome(clone_r: Result<i32, i32>, wait_r: Result<i32, i32>) -> ExitOutcome {
    match clone_r {
        Ok(_) => match wait_r {
            Ok(status) => ExitOutcome::Completed { status },
            Err(_) => ExitOutcome::Failed { fault: Fault::Wait },
        },
        Err(_) => ExitOutcome::Failed { fault: Fault::Launch },
    }
}

/// Replay one launch's decisions over its kernel answers. The wait answer is
/// read only when the creation answer produced a child.
pub fn resolve_launch(clone_r: Result<i32, i32>, wait_r: Result<i32, i32>) -> (o: ExitOutcome)
    ensures
        o == launch_outcome(clone_r, wait_r),
{
    match on_clone_result(clone_r) {
        CloneDecision::AwaitChild { pid: _ } => on_wait_result(wait_r),
        CloneDecision::Abandon { outcome } => outcome,
    }
}

/// The pair of outcomes of two launches run one after the other.
pub open spec fn sequential_outcomes(
    first_clone: Result<i32, i32>,
    first_wait: Result<i32, i32>,
    second_clone: Result<i32, i32>,
    second_wait: Result<i32, i32>,
) -> (ExitOutcome, ExitOutcome) {
    (launch_outcome(first_clone, first_wait), launch_outcome(second_clone, second_wait))
}

/// Two sequential launches are independent in-process: each run's outcome is
/// fixed by its own kernel answers alone, so neither run's answers reach the
/// other's outcome. (That the kernel hands each run fresh, non-interacting
/// namespaces, torn down when their last process exits, is the kernel's part
/// and lies outside this model.)
pub proof fn lemma_sequential_runs_independent(
    first_clone: Result<i32, i32>,
    first_wait: Result<i32, i32>,
    second_clone: Result<i32, i32>,
    second_wait: Result<i32, i32>,
)
    ensures
        sequential_outcomes(first_clone, first_wait, second_clone, second_wait).0
            == launch_outcome(first_clone, first_wait),
        sequential_outcomes(first_clone, first_wait, second_clone, second_wait).1
            == launch_outcome(second_clone, second_wait),
{
}

} // verus!
