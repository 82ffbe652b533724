use vstd::prelude::*;

verus! {

/// An operating-system error number, as read from `errno` after a failed call.
/// The numbers below are Linux's, the same on every Linux architecture.
#[derive(Debug, Clone, Copy, PartialEq, Eq, Structural)]
pub struct Errno(pub i32);

/// The outcome of one system call: success, or the error number it reported.
pub type SystemResult = Result<(), Errno>;

/// Operation not permitted.
pub const EPERM: i32 = 1;
/// No such file or directory.
pub const ENOENT: i32 = 2;
/// Input/output error.
pub const EIO: i32 = 5;
/// Exec format error.
pub const ENOEXEC: i32 = 8;
/// Out of memory.
pub const ENOMEM: i32 = 12;
/// File exists.
pub const EEXIST: i32 = 17;
/// Permission denied.
pub const EACCES: i32 = 13;
/// Not a directory.
pub const ENOTDIR: i32 = 20;
/// Invalid argument.
pub const EINVAL: i32 = 22;

/// The error number of a failed outcome (zero for a success).
pub open spec fn errno_of(outcome: SystemResult) -> Errno {
    match outcome {
        Err(e) => e,
        Ok(_) => Errno(0),
    }
}

/// Calls `errno::errno`, which reads the calling thread's `errno`. What it
/// returns depends on the last failed call, so nothing is stated of it.
#[verifier::external_body]
fn last_errno() -> Errno {
    Errno(errno::errno().0)
}

/// Calls the `Display` of `errno::Errno`, which describes an error number
/// with `strerror_r`. The text depends on the C library and its locale, so
/// nothing is stated of it.
#[verifier::external_body]
pub(crate) fn errno_description(error: Errno) -> String {
    errno::Errno(error.0).to_string()
}

/// The outcome of a system call that returned `ret`: `-1` is a failure, with
/// the error number the call left in `errno`; anything else is a success.
pub fn syscall_result(ret: i64) -> (r: SystemResult)
    ensures
        r is Ok <==> ret != -1,
{
    if ret == -1 {
        Err(last_errno())
    } else {
        Ok(())
    }
}

} // verus!
