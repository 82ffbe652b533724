use init_wrapper::errors::Errno;
use init_wrapper::launch::{
    exit_status, should_try_next_init, InitLauncher, LaunchOutcome, EXIT_FAILURE, EXIT_SUCCESS,
    INIT_CANDIDATES,
};
use libc::{EACCES, EINVAL, ENOENT, ENOEXEC, ENOTDIR};

#[test]
fn init_fallback_order_matches_documented_order() {
    assert_eq!(
        INIT_CANDIDATES,
        ["/sbin/init", "/usr/sbin/init", "/usr/lib/systemd/systemd"]
    );
}

#[test]
fn init_retry_policy_only_retries_missing_or_unusable_candidates() {
    for errno in [ENOENT, EACCES, ENOEXEC, ENOTDIR] {
        assert!(should_try_next_init(Errno(errno)));
    }
    for errno in [EINVAL, libc::EIO, libc::EPERM, libc::ENOMEM] {
        assert!(!should_try_next_init(Errno(errno)));
    }
}

#[test]
fn launcher_tries_candidates_in_order_until_one_is_usable() {
    let mut launcher = InitLauncher::new();
    assert_eq!(launcher.next_candidate(), Some("/sbin/init"));
    assert_eq!(launcher.record_exec_result(Err(Errno(ENOENT))), None);
    assert_eq!(launcher.next_candidate(), Some("/usr/sbin/init"));
    assert_eq!(launcher.record_exec_result(Ok(())), Some(LaunchOutcome::Started));
    assert_eq!(launcher.next_candidate(), None);
    assert_eq!(exit_status(LaunchOutcome::Started), EXIT_SUCCESS);
}

#[test]
fn launcher_stops_on_an_error_that_is_not_retried() {
    let mut launcher = InitLauncher::new();
    assert_eq!(launcher.record_exec_result(Err(Errno(libc::E2BIG))), Some(LaunchOutcome::Failed(Errno(libc::E2BIG))));
    assert_eq!(launcher.next_candidate(), None);
    assert_eq!(exit_status(LaunchOutcome::Failed(Errno(libc::E2BIG))), EXIT_FAILURE);
}

#[test]
fn launcher_is_exhausted_after_every_candidate_is_missing() {
    let mut launcher = InitLauncher::new();
    let mut tried = Vec::new();
    let mut end = None;
    while let Some(path) = launcher.next_candidate() {
        tried.push(path);
        end = launcher.record_exec_result(Err(Errno(ENOENT)));
    }
    assert_eq!(tried, INIT_CANDIDATES);
    assert_eq!(end, Some(LaunchOutcome::Exhausted));
    assert_eq!(exit_status(LaunchOutcome::Exhausted), EXIT_FAILURE);
}
