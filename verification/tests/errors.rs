use init_wrapper::errors::{
    syscall_result, EACCES, EEXIST, EINVAL, EIO, ENOENT, ENOEXEC, ENOMEM, ENOTDIR, EPERM,
};

#[test]
fn error_numbers_match_the_c_library() {
    assert_eq!(EPERM, libc::EPERM);
    assert_eq!(ENOENT, libc::ENOENT);
    assert_eq!(EIO, libc::EIO);
    assert_eq!(ENOEXEC, libc::ENOEXEC);
    assert_eq!(ENOMEM, libc::ENOMEM);
    assert_eq!(EACCES, libc::EACCES);
    assert_eq!(EEXIST, libc::EEXIST);
    assert_eq!(ENOTDIR, libc::ENOTDIR);
    assert_eq!(EINVAL, libc::EINVAL);
}

#[test]
fn minus_one_is_a_failure_with_the_last_errno() {
    assert_eq!(syscall_result(0), Ok(()));
    assert_eq!(syscall_result(3), Ok(()));
    assert!(syscall_result(-1).is_err());
}
