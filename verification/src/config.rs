//! The launch configuration: every parameter of a run, gathered in one
//! explicit struct instead of scattered constants.

use vstd::prelude::*;
use vstd::string::StringExecFns;

verus! {

/// Size in bytes of the execution stack handed to the kernel for the new
/// process: a fixed 4 MiB region.
pub const STANDARD_STACK_SIZE: usize = 4 * 1024 * 1024;

/// Everything a launch is parameterized over. The running program uses one
/// fixed configuration (see [`standard_config`]); the struct exists so the
/// behaviour can be stated, and tested, for alternate shells and sizes.
pub struct LaunchConfig {
    /// Size in bytes of the execution stack for the new process. The region
    /// must outlive the point at which the new process begins running.
    pub stack_size: usize,
    /// Path of the shell image that replaces the initializer on success.
    pub shell_path: String,
    /// The single flag passed to the shell, requesting interactive mode.
    pub shell_arg: String,
}

impl LaunchConfig {
    /// A configuration is well formed when the stack is non-empty and the
    /// shell is named by a non-empty path.
    pub open spec fn wf(&self) -> bool {
        &&& self.stack_size >= 1
        &&& self.shell_path@.len() >= 1
    }
}

/// The one configuration the program runs with: a 4 MiB stack and an
/// interactive `/bin/bash`.
pub fn standard_config() -> (c: LaunchConfig)
    ensures
        c.stack_size == STANDARD_STACK_SIZE,
        c.shell_path@ == "/bin/bash"@,
        c.shell_arg@ == "-i"@,
        c.wf(),
{
    proof {
        reveal_strlit("/bin/bash");
    }
    LaunchConfig {
        stack_size: STANDARD_STACK_SIZE,
        shell_path: String::from_str("/bin/bash"),
        shell_arg: String::from_str("-i"),
    }
}

} // verus!
