//! Flag sets handed to the kernel: which namespaces the new process receives,
//! and with which restrictions the private procfs is mounted.

use vstd::prelude::*;

verus! {

/// Kernel flag bit requesting a fresh hostname/domain-name namespace.
pub const NEW_HOSTNAME_NS_BIT: u64 = 0x0400_0000;

/// Kernel flag bit requesting a fresh process-ID namespace.
pub const NEW_PID_NS_BIT: u64 = 0x2000_0000;

/// Kernel flag bit requesting a fresh mount namespace.
pub const NEW_MOUNT_NS_BIT: u64 = 0x0002_0000;

/// Mount flag bit forbidding set-UID/set-GID effect through the mount.
pub const MOUNT_NOSUID_BIT: u64 = 0x2;

/// Mount flag bit forbidding device-file use through the mount.
pub const MOUNT_NODEV_BIT: u64 = 0x4;

/// Mount flag bit forbidding execution of binaries from the mount.
pub const MOUNT_NOEXEC_BIT: u64 = 0x8;

/// Signal number the kernel is asked to deliver to the parent when the child
/// terminates; without it the child's exit status cannot be collected by a
/// synchronous wait.
pub const CHILD_TERMINATION_SIGNAL: i32 = 17;

/// True when every bit of `bit` is set in `set`.
pub open spec fn has_bit(set: u64, bit: u64) -> bool {
    set & bit == bit
}

/// Immutable bitmask describing which isolation domains a new process
/// receives. Chosen once at launch time; never mutated afterwards.
#[derive(Clone, Copy, PartialEq, Eq, Structural, Debug)]
pub struct CloneFlagSet {
    pub bits: u64,
}

/// Immutable bitmask of restrictions on a mount.
#[derive(Clone, Copy, PartialEq, Eq, Structural, Debug)]
pub struct MountFlagSet {
    pub bits: u64,
}

/// The namespace flag set of a launch: a fresh hostname namespace, a fresh
/// process-ID namespace and a fresh mount namespace, and nothing else.
pub fn namespace_flags() -> (r: CloneFlagSet)
    ensures
        r.bits == NEW_HOSTNAME_NS_BIT | NEW_PID_NS_BIT | NEW_MOUNT_NS_BIT,
        has_bit(r.bits, NEW_HOSTNAME_NS_BIT),
        has_bit(r.bits, NEW_PID_NS_BIT),
        has_bit(r.bits, NEW_MOUNT_NS_BIT),
{
    let bits: u64 = NEW_HOSTNAME_NS_BIT | NEW_PID_NS_BIT | NEW_MOUNT_NS_BIT;
    proof {
        lemma_namespace_flag_bits();
    }
    CloneFlagSet { bits }
}

/// Every one of the three namespace bits is set in their union.
pub proof fn lemma_namespace_flag_bits()
    by (bit_vector)
    ensures
        has_bit(NEW_HOSTNAME_NS_BIT | NEW_PID_NS_BIT | NEW_MOUNT_NS_BIT, NEW_HOSTNAME_NS_BIT),
        has_bit(NEW_HOSTNAME_NS_BIT | NEW_PID_NS_BIT | NEW_MOUNT_NS_BIT, NEW_PID_NS_BIT),
        has_bit(NEW_HOSTNAME_NS_BIT | NEW_PID_NS_BIT | NEW_MOUNT_NS_BIT, NEW_MOUNT_NS_BIT),
{
}

/// The restrictions every private procfs mount of this library carries:
/// no execution from it, no device files through it, no set-UID effect.
pub fn restricted_proc_flags() -> (r: MountFlagSet)
    ensures
        r.bits == MOUNT_NOEXEC_BIT | MOUNT_NODEV_BIT | MOUNT_NOSUID_BIT,
        has_bit(r.bits, MOUNT_NOEXEC_BIT),
        has_bit(r.bits, MOUNT_NODEV_BIT),
        has_bit(r.bits, MOUNT_NOSUID_BIT),
{
    let bits: u64 = MOUNT_NOEXEC_BIT | MOUNT_NODEV_BIT | MOUNT_NOSUID_BIT;
    proof {
        lemma_proc_mount_flag_bits();
    }
    MountFlagSet { bits }
}

/// Every one of the three mount-restriction bits is set in their union.
pub proof fn lemma_proc_mount_flag_bits()
    by (bit_vector)
    ensures
        has_bit(MOUNT_NOEXEC_BIT | MOUNT_NODEV_BIT | MOUNT_NOSUID_BIT, MOUNT_NOEXEC_BIT),
        has_bit(MOUNT_NOEXEC_BIT | MOUNT_NODEV_BIT | MOUNT_NOSUID_BIT, MOUNT_NODEV_BIT),
        has_bit(MOUNT_NOEXEC_BIT | MOUNT_NODEV_BIT | MOUNT_NOSUID_BIT, MOUNT_NOSUID_BIT),
{
}

} // verus!
