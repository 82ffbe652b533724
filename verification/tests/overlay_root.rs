use init_wrapper::errors::{Errno, EEXIST, EINVAL};
use init_wrapper::overlay_root::{
    classify_move_mount_result, execute_root_action, replace_root, root_replacement_plan,
    MoveMountDecision, RootAction, RootReplacement, StepOutcome, LOWER_BIND_FLAGS, LOWER_READONLY_REMOUNT_FLAGS,
    MOVE_MNT_PAIRS, MOVE_MOUNT_FLAGS, OLDROOT_UMOUNT_FLAGS, OVERLAY_DIRS, OVERLAY_OPTIONS,
    OVERLAY_ROOT_FLAGS, PRIVATE_ROOT_FLAGS, ROOT_REPLACEMENT_STEPS, RUN_TMPFS_FLAGS, UNUSED_DIRS,
};
use libc::{
    EACCES, MNT_DETACH, MS_BIND, MS_LAZYTIME, MS_MOVE, MS_NODEV, MS_NOSUID, MS_PRIVATE, MS_RDONLY,
    MS_REC, MS_RELATIME, MS_REMOUNT,
};

#[test]
fn root_replacement_flags_match_documented_mount_contract() {
    assert_eq!(PRIVATE_ROOT_FLAGS, MS_REC | MS_PRIVATE);
    assert_eq!(
        RUN_TMPFS_FLAGS,
        MS_LAZYTIME | MS_NODEV | MS_NOSUID | MS_RELATIME
    );
    assert_eq!(LOWER_BIND_FLAGS, MS_BIND);
    assert_eq!(
        LOWER_READONLY_REMOUNT_FLAGS,
        MS_BIND | MS_REMOUNT | MS_RDONLY
    );
    assert_eq!(OVERLAY_ROOT_FLAGS, MS_RELATIME | MS_LAZYTIME);
    assert_eq!(MOVE_MOUNT_FLAGS, MS_REC | MS_MOVE);
    assert_eq!(OLDROOT_UMOUNT_FLAGS, MNT_DETACH);
}

#[test]
fn root_replacement_plan_pins_privileged_syscall_order() {
    assert_eq!(
        root_replacement_plan(),
        [
            RootAction::MakeRootPrivate,
            RootAction::MountRunTmpfs,
            RootAction::Mkdir {
                path: "/run/overlay",
                mode: 0o0700,
            },
            RootAction::Mkdir {
                path: "/run/overlay/lower",
                mode: 0o0700,
            },
            RootAction::Mkdir {
                path: "/run/overlay/upper",
                mode: 0o0755,
            },
            RootAction::Mkdir {
                path: "/run/overlay/work",
                mode: 0o0755,
            },
            RootAction::Mkdir {
                path: "/run/overlay/merged",
                mode: 0o0755,
            },
            RootAction::BindLower,
            RootAction::RemountLowerReadonly,
            RootAction::MountOverlay,
            RootAction::Mkdir {
                path: "/run/overlay/merged/oldroot",
                mode: 0o0700,
            },
            RootAction::PivotRoot,
            RootAction::ChdirRoot,
            RootAction::MoveMount {
                src: "/oldroot/run",
                dst: "/run",
                required: true,
            },
            RootAction::MoveMount {
                src: "/oldroot/dev",
                dst: "/dev",
                required: false,
            },
            RootAction::UmountOldRoot,
            RootAction::Rmdir("/oldroot"),
            RootAction::Rmdir("/run/overlay/merged"),
        ]
    );
}

#[test]
fn overlay_directory_layout_matches_runtime_sequence() {
    assert_eq!(
        OVERLAY_DIRS,
        [
            ("/run/overlay", 0o0700),
            ("/run/overlay/lower", 0o0700),
            ("/run/overlay/upper", 0o0755),
            ("/run/overlay/work", 0o0755),
            ("/run/overlay/merged", 0o0755),
        ]
    );
    assert_eq!(UNUSED_DIRS, ["/oldroot", "/run/overlay/merged"]);
}

#[test]
fn overlay_options_pin_lower_upper_work_and_volatile_features() {
    for required in [
        "lowerdir=/run/overlay/lower",
        "upperdir=/run/overlay/upper",
        "workdir=/run/overlay/work",
        "redirect_dir=on",
        "uuid=on",
        "metacopy=on",
        "volatile",
    ] {
        assert!(OVERLAY_OPTIONS.split(',').any(|option| option == required));
    }
}

#[test]
fn run_mount_move_is_required_and_dev_move_is_best_effort() {
    assert_eq!(MOVE_MNT_PAIRS[0], ("/oldroot/run", "/run", true));
    assert_eq!(MOVE_MNT_PAIRS[1], ("/oldroot/dev", "/dev", false));
}

#[test]
fn move_mount_error_policy_matches_early_boot_contract() {
    assert_eq!(
        classify_move_mount_result(&Ok(()), true),
        MoveMountDecision::Continue
    );
    assert_eq!(
        classify_move_mount_result(&Ok(()), false),
        MoveMountDecision::Continue
    );
    assert_eq!(
        classify_move_mount_result(&Err(Errno(EINVAL)), true),
        MoveMountDecision::Continue
    );
    assert_eq!(
        classify_move_mount_result(&Err(Errno(libc::EIO)), true),
        MoveMountDecision::Fail
    );
    assert_eq!(
        classify_move_mount_result(&Err(Errno(libc::EIO)), false),
        MoveMountDecision::Continue
    );
}

#[test]
fn plan_has_the_documented_number_of_steps() {
    assert_eq!(root_replacement_plan().len(), ROOT_REPLACEMENT_STEPS);
    assert_eq!(ROOT_REPLACEMENT_STEPS, 18);
}

#[test]
fn failed_mount_reports_its_context_and_errno() {
    let err = execute_root_action(RootAction::BindLower, StepOutcome::of(Err(Errno(EINVAL)))).unwrap_err();
    assert_eq!(err.context, "mount \"/run/overlay/lower\" failed");
    assert_eq!(err.errno, Errno(EINVAL));
    assert_eq!(
        err.message("Invalid argument"),
        "mount \"/run/overlay/lower\" failed: Invalid argument"
    );
}

#[test]
fn failed_steps_name_their_paths() {
    let mkdir = RootAction::Mkdir { path: "/run/overlay/work", mode: 0o0755 };
    assert_eq!(
        execute_root_action(mkdir, StepOutcome::of(Err(Errno(EACCES)))).unwrap_err().context,
        "mkdir \"/run/overlay/work\" failed"
    );
    assert_eq!(
        execute_root_action(RootAction::Rmdir("/oldroot"), StepOutcome::of(Err(Errno(EACCES)))).unwrap_err().context,
        "remove \"/oldroot\" failed"
    );
    let run_move = RootAction::MoveMount { src: "/oldroot/run", dst: "/run", required: true };
    assert_eq!(
        execute_root_action(run_move, StepOutcome::of(Err(Errno(libc::EIO)))).unwrap_err().context,
        "moving mountpoint \"/oldroot/run\"  failed"
    );
    assert_eq!(
        execute_root_action(RootAction::MakeRootPrivate, StepOutcome::of(Err(Errno(libc::EPERM)))).unwrap_err().context,
        "remount \"/\" with private option failed"
    );
    assert_eq!(
        execute_root_action(RootAction::UmountOldRoot, StepOutcome::of(Err(Errno(libc::EBUSY)))).unwrap_err().context,
        "umount mountpoint \"/oldroot\"  failed"
    );
    assert_eq!(
        execute_root_action(RootAction::PivotRoot, StepOutcome::of(Err(Errno(EINVAL)))).unwrap_err().context,
        "pivot_root failed"
    );
}

#[test]
fn successful_steps_and_tolerated_moves_go_on() {
    assert_eq!(execute_root_action(RootAction::ChdirRoot, StepOutcome::of(Ok(()))), Ok(()));
    let dev_move = RootAction::MoveMount { src: "/oldroot/dev", dst: "/dev", required: false };
    assert_eq!(execute_root_action(dev_move, StepOutcome::of(Err(Errno(libc::ENOENT)))), Ok(()));
    let run_move = RootAction::MoveMount { src: "/oldroot/run", dst: "/run", required: true };
    assert_eq!(execute_root_action(run_move, StepOutcome::of(Err(Errno(EINVAL)))), Ok(()));
}

#[test]
fn replacement_runs_every_step_in_order_when_all_succeed() {
    let plan = root_replacement_plan();
    let mut state = RootReplacement::new();
    let mut seen = Vec::new();
    let mut end = None;
    while let Some(action) = state.next_action() {
        seen.push(action);
        if let Some(result) = replace_root(&mut state, StepOutcome::of(Ok(()))) {
            end = Some(result);
        }
    }
    assert_eq!(seen, plan);
    assert_eq!(end, Some(Ok(())));
    assert!(state.succeeded());
}

#[test]
fn replacement_stops_at_the_first_failure() {
    let mut state = RootReplacement::new();
    let mut steps = 0;
    let mut end = None;
    while let Some(action) = state.next_action() {
        steps += 1;
        let outcome = if action == RootAction::MountOverlay { Err(Errno(libc::ENODEV)) } else { Ok(()) };
        if let Some(result) = replace_root(&mut state, StepOutcome::of(outcome)) {
            end = Some(result);
        }
    }
    assert_eq!(steps, 10);
    let err = end.unwrap().unwrap_err();
    assert_eq!(err.context, "mount \"/run/overlay/merged\" failed");
    assert_eq!(err.errno, Errno(libc::ENODEV));
    assert!(!state.succeeded());
    assert_eq!(state.next_action(), None);
}

#[test]
fn failed_dev_move_does_not_stop_the_replacement() {
    let mut state = RootReplacement::new();
    let mut end = None;
    while let Some(action) = state.next_action() {
        let outcome = match action {
            RootAction::MoveMount { .. } => Err(Errno(libc::EINVAL)),
            _ => Ok(()),
        };
        let outcome = if action == (RootAction::MoveMount { src: "/oldroot/dev", dst: "/dev", required: false }) {
            Err(Errno(libc::EIO))
        } else {
            outcome
        };
        if let Some(result) = replace_root(&mut state, StepOutcome::of(outcome)) {
            end = Some(result);
        }
    }
    assert_eq!(end, Some(Ok(())));
}

#[test]
fn creating_an_existing_directory_goes_on_like_mkdir_p() {
    let mkdir = RootAction::Mkdir { path: "/run/overlay/merged/oldroot", mode: 0o0700 };
    let existing = StepOutcome { result: Err(Errno(EEXIST)), existing_directory: true };
    assert_eq!(execute_root_action(mkdir, existing), Ok(()));
    let file_in_the_way = StepOutcome { result: Err(Errno(EEXIST)), existing_directory: false };
    let err = execute_root_action(mkdir, file_in_the_way).unwrap_err();
    assert_eq!(err.context, "mkdir \"/run/overlay/merged/oldroot\" failed");
    assert_eq!(err.errno, Errno(EEXIST));
    let other = StepOutcome { result: Err(Errno(libc::EROFS)), existing_directory: true };
    assert!(execute_root_action(mkdir, other).is_err());
    let not_mkdir = StepOutcome { result: Err(Errno(EEXIST)), existing_directory: true };
    assert!(execute_root_action(RootAction::BindLower, not_mkdir).is_err());
}

#[test]
fn replacement_goes_on_when_overlay_directories_already_exist() {
    let mut state = RootReplacement::new();
    let mut end = None;
    while let Some(action) = state.next_action() {
        let outcome = match action {
            RootAction::Mkdir { .. } => StepOutcome { result: Err(Errno(EEXIST)), existing_directory: true },
            _ => StepOutcome::of(Ok(())),
        };
        if let Some(result) = replace_root(&mut state, outcome) {
            end = Some(result);
        }
    }
    assert_eq!(end, Some(Ok(())));
}

#[test]
fn report_joins_context_and_description() {
    let err = execute_root_action(RootAction::BindLower, StepOutcome::of(Err(Errno(EINVAL)))).unwrap_err();
    let report = err.report();
    assert!(report.starts_with("mount \"/run/overlay/lower\" failed: "));
    assert!(report.len() > "mount \"/run/overlay/lower\" failed: ".len());
}
