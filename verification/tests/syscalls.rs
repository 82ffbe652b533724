use init_wrapper::errors::Errno;
use init_wrapper::overlay_root::{RootAction, OVERLAY_OPTIONS, OVERLAY_ROOT_FLAGS, PRIVATE_ROOT_FLAGS};
use init_wrapper::syscalls::{
    c_string_bytes, device_number, optional_c_string, prepare_exec, prepare_mount, root_action_syscall, SyscallRequest,
};
use libc::EINVAL;

#[test]
fn mount_rejects_nul_bytes_before_syscall() {
    assert_eq!(
        prepare_mount(Some("bad\0source"), None, None, 0, None),
        Err(Errno(EINVAL))
    );
    assert_eq!(
        prepare_mount(None, Some("bad\0target"), None, 0, None),
        Err(Errno(EINVAL))
    );
    assert_eq!(
        prepare_mount(None, None, Some("bad\0fs"), 0, None),
        Err(Errno(EINVAL))
    );
    assert_eq!(
        prepare_mount(None, None, None, 0, Some("bad\0option")),
        Err(Errno(EINVAL))
    );
}

#[test]
fn execv_rejects_null_argv_and_nul_path_before_syscall() {
    assert_eq!(prepare_exec("/sbin/init", false), Err(Errno(EINVAL)));
    assert_eq!(prepare_exec("bad\0init", true), Err(Errno(EINVAL)));
}

#[test]
fn exec_path_becomes_a_nul_terminated_c_string() {
    assert_eq!(prepare_exec("/sbin/init", true), Ok(b"/sbin/init\0".to_vec()));
}

#[test]
fn c_strings_are_terminated_and_refuse_inner_nul() {
    assert_eq!(c_string_bytes("/run"), Ok(b"/run\0".to_vec()));
    assert_eq!(c_string_bytes(""), Ok(vec![0u8]));
    assert_eq!(c_string_bytes("\0"), Err(Errno(EINVAL)));
    assert_eq!(optional_c_string(None), Ok(None));
    assert_eq!(optional_c_string(Some("tmpfs")), Ok(Some(b"tmpfs\0".to_vec())));
}

#[test]
fn mount_arguments_keep_flags_and_strings() {
    let call = prepare_mount(Some("rootfs"), Some("/run/overlay/merged"), Some("overlay"), 7, None).unwrap();
    assert_eq!(call.source, Some(b"rootfs\0".to_vec()));
    assert_eq!(call.target, Some(b"/run/overlay/merged\0".to_vec()));
    assert_eq!(call.fs, Some(b"overlay\0".to_vec()));
    assert_eq!(call.flags, 7);
    assert_eq!(call.data, None);
}

#[test]
fn steps_map_to_their_system_calls() {
    assert_eq!(
        root_action_syscall(RootAction::MakeRootPrivate),
        SyscallRequest::Mount { source: None, target: Some("/"), fs: None, flags: PRIVATE_ROOT_FLAGS, data: None }
    );
    assert_eq!(
        root_action_syscall(RootAction::MountOverlay),
        SyscallRequest::Mount {
            source: Some("rootfs"),
            target: Some("/run/overlay/merged"),
            fs: Some("overlay"),
            flags: OVERLAY_ROOT_FLAGS,
            data: Some(OVERLAY_OPTIONS),
        }
    );
    assert_eq!(
        root_action_syscall(RootAction::PivotRoot),
        SyscallRequest::PivotRoot { new_root: "/run/overlay/merged", put_old: "/run/overlay/merged/oldroot" }
    );
    assert_eq!(
        root_action_syscall(RootAction::UmountOldRoot),
        SyscallRequest::Umount { path: "/oldroot", flags: libc::MNT_DETACH }
    );
    assert_eq!(
        root_action_syscall(RootAction::Rmdir("/oldroot")),
        SyscallRequest::Rmdir { path: "/oldroot" }
    );
    assert_eq!(
        root_action_syscall(RootAction::Mkdir { path: "/run/overlay", mode: 0o700 }),
        SyscallRequest::Mkdir { path: "/run/overlay", mode: 0o700 }
    );
}

#[test]
fn device_numbers_match_makedev() {
    assert_eq!(device_number(1, 3), 0x103);
    assert_eq!(device_number(1, 3), libc::makedev(1, 3));
    assert_eq!(device_number(0x12345, 0x6789a), libc::makedev(0x12345, 0x6789a));
    assert_eq!(device_number(0x12345, 0x6789a), 0x0001_2000_6783_459a);
}
