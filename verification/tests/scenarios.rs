use nsbox::config::standard_config;
use nsbox::initializer::{plan, step, InitAction, InitEvent, InitStage};
use nsbox::launcher::{on_clone_result, on_wait_result, resolve_launch, CloneDecision};
use nsbox::outcome::{ExitOutcome, Fault};

// An unprivileged caller: the kernel refuses the creation (EPERM), no child
// ever exists, and the launcher stops at once with a launch fault.
#[test]
fn unprivileged_caller_fails_the_launch_and_creates_no_child() {
    let eperm: i32 = 1;
    let d = on_clone_result(Err(eperm));
    assert_eq!(
        d,
        CloneDecision::Abandon {
            outcome: ExitOutcome::Failed {
                fault: Fault::Launch
            }
        }
    );
    let o = resolve_launch(Err(eperm), Ok(0));
    assert_eq!(
        o,
        ExitOutcome::Failed {
            fault: Fault::Launch
        }
    );
}

// The shell binary is absent: the proc mount succeeds, the image replacement
// call returns with an error, and the initializer aborts on an exec fault.
#[test]
fn absent_shell_aborts_after_a_successful_mount() {
    let mounted = step(InitStage::Started, InitEvent::MountSucceeded);
    assert_eq!(mounted, InitStage::ProcMounted);
    let end = step(mounted, InitEvent::ExecFailed);
    assert_eq!(end, InitStage::Aborted(Fault::Exec));
}

// A normal run: a child is created and awaited, inside it the mount succeeds
// and the image replacement takes effect, and once the shell exits the wait
// answer becomes the program's outcome.
#[test]
fn successful_run_awaits_the_child_and_propagates_its_status() {
    let child_pid: i32 = 4242;
    let d = on_clone_result(Ok(child_pid));
    assert_eq!(d, CloneDecision::AwaitChild { pid: child_pid });

    let mounted = step(InitStage::Started, InitEvent::MountSucceeded);
    let end = step(mounted, InitEvent::ExecSucceeded);
    assert_eq!(end, InitStage::ImageReplaced);

    let o = on_wait_result(Ok(0));
    assert_eq!(o, ExitOutcome::Completed { status: 0 });
    assert_eq!(
        resolve_launch(Ok(child_pid), Ok(0)),
        ExitOutcome::Completed { status: 0 }
    );
}

// The boundary: a failed mount aborts the initializer before any image
// replacement is planned — the shell never runs over a broken procfs.
#[test]
fn failed_mount_aborts_before_any_image_replacement() {
    let end = step(InitStage::Started, InitEvent::MountFailed);
    assert_eq!(end, InitStage::Aborted(Fault::Mount));

    let c = standard_config();
    let a = plan(&c, &end);
    assert!(matches!(a, InitAction::AbortWith(Fault::Mount)));
    assert!(!matches!(a, InitAction::ReplaceImage(_)));

    // Whatever answers follow, the aborted stage is final.
    let still = step(end, InitEvent::ExecSucceeded);
    assert_eq!(still, InitStage::Aborted(Fault::Mount));
}

// The plan of each live stage: mount the restricted procfs first, replace the
// image with the configured shell second.
#[test]
fn plan_orders_mount_before_image_replacement() {
    let c = standard_config();
    match plan(&c, &InitStage::Started) {
        InitAction::MountProc(d) => {
            assert_eq!(d.target.as_str(), "/proc");
            assert_eq!(d.flags.bits, 0xe);
        }
        _ => panic!("the first planned action must be the proc mount"),
    }
    match plan(&c, &InitStage::ProcMounted) {
        InitAction::ReplaceImage(img) => {
            assert_eq!(img.path.as_str(), "/bin/bash");
            assert_eq!(img.arg.as_str(), "-i");
        }
        _ => panic!("the second planned action must be the image replacement"),
    }
    assert!(matches!(
        plan(&c, &InitStage::ImageReplaced),
        InitAction::NoFurtherStep
    ));
}

// Two sequential runs: each outcome is fixed by its own kernel answers alone,
// so the first run's failure leaves the second run's outcome untouched.
#[test]
fn sequential_runs_do_not_interact() {
    let first = resolve_launch(Err(1), Ok(0));
    let second = resolve_launch(Ok(7), Ok(0));
    assert_eq!(
        first,
        ExitOutcome::Failed {
            fault: Fault::Launch
        }
    );
    assert_eq!(second, ExitOutcome::Completed { status: 0 });
    // A rerun with the same answers ends the same.
    assert_eq!(second, resolve_launch(Ok(7), Ok(0)));
}

// A failed wait is its own fault, distinct from a failed launch.
#[test]
fn failed_wait_is_reported_as_a_wait_fault() {
    let o = on_wait_result(Err(10));
    assert_eq!(
        o,
        ExitOutcome::Failed {
            fault: Fault::Wait
        }
    );
}
