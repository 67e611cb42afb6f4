//! The namespace initializer: the first and only code that runs inside the
//! new namespaces. Its lifecycle is a three-stage machine — mount a private
//! procfs, then replace the process image with the shell — where every
//! failure is terminal and a failed mount aborts before any image
//! replacement is attempted.

use vstd::prelude::*;
use vstd::string::StringExecFns;
use crate::config::LaunchConfig;
use crate::flags::{
    has_bit, restricted_proc_flags, MountFlagSet, MOUNT_NODEV_BIT, MOUNT_NOEXEC_BIT,
    MOUNT_NOSUID_BIT,
};
use crate::outcome::Fault;

verus! {

/// A transient declaration of one mount: source tag, target path, filesystem
/// type and restriction flags. It has no in-process representation after the
/// mount call succeeds — the state lives in the kernel's mount table of the
/// new mount namespace only.
pub struct MountDescriptor {
    /// Source tag of the mount (for procfs a conventional tag, not a device).
    pub source: String,
    /// Path the filesystem is mounted on.
    pub target: String,
    /// Name of the filesystem type.
    pub fstype: String,
    /// Restrictions the mount carries.
    pub flags: MountFlagSet,
}

/// The descriptor of the one mount the initializer performs: a private
/// procfs at `/proc`, with execution, device files and set-UID effect all
/// forbidden through it.
pub fn proc_mount_descriptor() -> (d: MountDescriptor)
    ensures
        d.source@ == "proc"@,
        d.target@ == "/proc"@,
        d.fstype@ == "proc"@,
        d.flags.bits == MOUNT_NOEXEC_BIT | MOUNT_NODEV_BIT | MOUNT_NOSUID_BIT,
        has_bit(d.flags.bits, MOUNT_NOEXEC_BIT),
        has_bit(d.flags.bits, MOUNT_NODEV_BIT),
        has_bit(d.flags.bits, MOUNT_NOSUID_BIT),
{
    MountDescriptor {
        source: String::from_str("proc"),
        target: String::from_str("/proc"),
        fstype: String::from_str("proc"),
        flags: restricted_proc_flags(),
    }
}

/// The program image that replaces the initializer on success.
pub struct ShellImage {
    /// Path of the shell binary.
    pub path: String,
    /// The single flag handed to it, requesting interactive mode.
    pub arg: String,
}

/// Lifecycle stage of the initializer. Only the transitions of [`next_stage`]
/// exist: `Started` to `ProcMounted` to `ImageReplaced`, or to `Aborted` at
/// either step. `ImageReplaced` and `Aborted` are terminal.
#[derive(Clone, Copy, PartialEq, Eq, Structural, Debug)]
pub enum InitStage {
    /// Fresh inside the new namespaces; nothing has been mounted yet.
    Started,
    /// The private procfs is mounted; the shell may now be loaded.
    ProcMounted,
    /// The process image is the shell's. No initializer code exists any more,
    /// so no running code ever observes this stage from inside.
    ImageReplaced,
    /// A step failed; the initializer stops without a fallback.
    Aborted(Fault),
}

/// What the kernel answered to the initializer's latest request.
#[derive(Clone, Copy, PartialEq, Eq, Structural, Debug)]
pub enum InitEvent {
    /// The procfs mount call returned success.
    MountSucceeded,
    /// The procfs mount call failed.
    MountFailed,
    /// The image replacement took effect. Never observed by running code:
    /// on success the process is already the shell.
    ExecSucceeded,
    /// The image replacement call returned, which it does only on failure.
    ExecFailed,
}

/// The transition relation of the initializer. A terminal stage absorbs
/// every event: no other transitions exist.
pub open spec fn next_stage(s: InitStage, e: InitEvent) -> InitStage {
    match (s, e) {
        (InitStage::Started, InitEvent::MountSucceeded) => InitStage::ProcMounted,
        (InitStage::Started, InitEvent::MountFailed) => InitStage::Aborted(Fault::Mount),
        (InitStage::ProcMounted, InitEvent::ExecSucceeded) => InitStage::ImageReplaced,
        (InitStage::ProcMounted, InitEvent::ExecFailed) => InitStage::Aborted(Fault::Exec),
        (s0, _) => s0,
    }
}

/// True of the two stages no event leaves.
pub open spec fn is_terminal(s: InitStage) -> bool {
    s is ImageReplaced || s is Aborted
}

/// Advance the initializer by one kernel answer.
pub fn step(s: InitStage, e: InitEvent) -> (t: InitStage)
    ensures
        t == next_stage(s, e),
        s is Started && e is MountFailed ==> t == InitStage::Aborted(Fault::Mount),
        s is ProcMounted && e is ExecFailed ==> t == InitStage::Aborted(Fault::Exec),
        is_terminal(s) ==> t == s,
{
    match (s, e) {
        (InitStage::Started, InitEvent::MountSucceeded) => InitStage::ProcMounted,
        (InitStage::Started, InitEvent::MountFailed) => InitStage::Aborted(Fault::Mount),
        (InitStage::ProcMounted, InitEvent::ExecSucceeded) => InitStage::ImageReplaced,
        (InitStage::ProcMounted, InitEvent::ExecFailed) => InitStage::Aborted(Fault::Exec),
        (s0, _) => s0,
    }
}

/// What the initializer does next in a given stage.
pub enum InitAction {
    /// Perform this mount.
    MountProc(MountDescriptor),
    /// Replace the process image with this shell. Irreversible on success.
    ReplaceImage(ShellImage),
    /// Stop with an unrecoverable failure.
    AbortWith(Fault),
    /// Nothing: no initializer code runs in this stage.
    NoFurtherStep,
}

/// The next action of each stage: mount first, replace the image only once
/// the mount has succeeded, stop on any failure. The mount requested is
/// always the restricted private procfs, and the image requested is always
/// the configured shell.
pub fn plan(c: &LaunchConfig, s: &InitStage) -> (a: InitAction)
    ensures
        s is Started ==> (a matches InitAction::MountProc(d)
            && d.source@ == "proc"@
            && d.target@ == "/proc"@
            && d.fstype@ == "proc"@
            && d.flags.bits == MOUNT_NOEXEC_BIT | MOUNT_NODEV_BIT | MOUNT_NOSUID_BIT
            && has_bit(d.flags.bits, MOUNT_NOEXEC_BIT)
            && has_bit(d.flags.bits, MOUNT_NODEV_BIT)
            && has_bit(d.flags.bits, MOUNT_NOSUID_BIT)),
        s is ProcMounted ==> (a matches InitAction::ReplaceImage(img)
            && img.path@ == c.shell_path@
            && img.arg@ == c.shell_arg@),
        s matches InitStage::Aborted(f) ==> a == InitAction::AbortWith(*f),
        s is ImageReplaced ==> a is NoFurtherStep,
        a is ReplaceImage ==> s is ProcMounted,
        a is MountProc ==> s is Started,
{
    match s {
        InitStage::Started => InitAction::MountProc(proc_mount_descriptor()),
        InitStage::ProcMounted => InitAction::ReplaceImage(ShellImage {
            path: c.shell_path.clone(),
            arg: c.shell_arg.clone(),
        }),
        InitStage::Aborted(f) => InitAction::AbortWith(*f),
        InitStage::ImageReplaced => InitAction::NoFurtherStep,
    }
}

/// The stage reached from `s` after the whole sequence of kernel answers `es`.
pub open spec fn run_events(s: InitStage, es: Seq<InitEvent>) -> InitStage
    decreases es.len(),
{
    if es.len() == 0 {
        s
    } else {
        run_events(next_stage(s, es[0]), es.subrange(1, es.len() as int))
    }
}

/// A terminal stage is final: no sequence of further events leaves it.
pub proof fn lemma_terminal_stage_is_final(s: InitStage, es: Seq<InitEvent>)
    requires
        is_terminal(s),
    ensures
        run_events(s, es) == s,
    decreases es.len(),
{
    if es.len() > 0 {
        lemma_terminal_stage_is_final(next_stage(s, es[0]), es.subrange(1, es.len() as int));
    }
}

/// The boundary law of the initializer: the mounted stage is entered only on
/// a successful mount, and the replaced image only from the mounted stage —
/// the shell never runs over a missing or broken procfs.
pub proof fn lemma_no_image_without_mount(s: InitStage, e: InitEvent)
    ensures
        next_stage(s, e) is ProcMounted && s !is ProcMounted ==> s is Started && e
            is MountSucceeded,
        next_stage(s, e) is ImageReplaced && s !is ImageReplaced ==> s is ProcMounted && e
            is ExecSucceeded,
        next_stage(InitStage::Started, InitEvent::MountFailed) == InitStage::Aborted(Fault::Mount),
{
}

/// A failed first mount decides the whole run: whatever answers follow, the
/// initializer ends aborted on the mount fault and never replaces its image.
pub proof fn lemma_mount_failure_precludes_image(es: Seq<InitEvent>)
    requires
        es.len() >= 1,
        es[0] == InitEvent::MountFailed,
    ensures
        run_events(InitStage::Started, es) == InitStage::Aborted(Fault::Mount),
{
    lemma_terminal_stage_is_final(
        InitStage::Aborted(Fault::Mount),
        es.subrange(1, es.len() as int),
    );
}

} // verus!
