use vstd::prelude::*;
use vstd::string::StringSliceAdditionalSpecFns;
use crate::errors::{Errno, EINVAL};
use crate::overlay_root::{
    RootAction, MNT_DETACH, MS_BIND, MS_LAZYTIME, MS_MOVE, MS_NODEV, MS_NOSUID, MS_PRIVATE, MS_RDONLY,
    MS_REC, MS_RELATIME, MS_REMOUNT, LOWER_BIND_FLAGS, LOWER_READONLY_REMOUNT_FLAGS, MOVE_MOUNT_FLAGS, OLDROOT_UMOUNT_FLAGS,
    OVERLAY_OPTIONS, OVERLAY_ROOT_FLAGS, PRIVATE_ROOT_FLAGS, RUN_TMPFS_FLAGS,
};

verus! {

/// A system call that the program around the library performs on its behalf.
#[derive(Debug, Clone, Copy, PartialEq, Eq)]
#[allow(inconsistent_fields)]
pub enum SyscallRequest {
    /// `mount(source, target, fs, flags, data)`, an absent string being a null pointer.
    Mount {
        source: Option<&'static str>,
        target: Option<&'static str>,
        fs: Option<&'static str>,
        flags: u64,
        data: Option<&'static str>,
    },
    /// `mkdir(path, mode)`.
    Mkdir { path: &'static str, mode: u32 },
    /// `pivot_root(new_root, put_old)`.
    PivotRoot { new_root: &'static str, put_old: &'static str },
    /// `chdir(path)`.
    Chdir { path: &'static str },
    /// `umount2(path, flags)`.
    Umount { path: &'static str, flags: i32 },
    /// `rmdir(path)`.
    Rmdir { path: &'static str },
}

/// The system call that carries out one step of the root replacement.
pub open spec fn spec_root_action_syscall(action: RootAction) -> SyscallRequest {
    match action {
        RootAction::MakeRootPrivate => SyscallRequest::Mount {
            source: None, target: Some("/"), fs: None, flags: PRIVATE_ROOT_FLAGS, data: None,
        },
        RootAction::MountRunTmpfs => SyscallRequest::Mount {
            source: Some("parentfs"), target: Some("/run"), fs: Some("tmpfs"), flags: RUN_TMPFS_FLAGS, data: None,
        },
        RootAction::Mkdir { path, mode } => SyscallRequest::Mkdir { path, mode },
        RootAction::BindLower => SyscallRequest::Mount {
            source: Some("/"), target: Some("/run/overlay/lower"), fs: None, flags: LOWER_BIND_FLAGS, data: None,
        },
        RootAction::RemountLowerReadonly => SyscallRequest::Mount {
            source: None, target: Some("/run/overlay/lower"), fs: None, flags: LOWER_READONLY_REMOUNT_FLAGS, data: None,
        },
        RootAction::MountOverlay => SyscallRequest::Mount {
            source: Some("rootfs"), target: Some("/run/overlay/merged"), fs: Some("overlay"),
            flags: OVERLAY_ROOT_FLAGS, data: Some(OVERLAY_OPTIONS),
        },
        RootAction::PivotRoot => SyscallRequest::PivotRoot {
            new_root: "/run/overlay/merged", put_old: "/run/overlay/merged/oldroot",
        },
        RootAction::ChdirRoot => SyscallRequest::Chdir { path: "/" },
        RootAction::MoveMount { src, dst, .. } => SyscallRequest::Mount {
            source: Some(src), target: Some(dst), fs: None, flags: MOVE_MOUNT_FLAGS, data: None,
        },
        RootAction::UmountOldRoot => SyscallRequest::Umount { path: "/oldroot", flags: OLDROOT_UMOUNT_FLAGS },
        RootAction::Rmdir(path) => SyscallRequest::Rmdir { path },
    }
}

/// The system call that carries out `action`.
pub fn root_action_syscall(action: RootAction) -> (req: SyscallRequest)
    ensures
        req == spec_root_action_syscall(action),
{
    match action {
        RootAction::MakeRootPrivate => SyscallRequest::Mount {
            source: None, target: Some("/"), fs: None, flags: PRIVATE_ROOT_FLAGS, data: None,
        },
        RootAction::MountRunTmpfs => SyscallRequest::Mount {
            source: Some("parentfs"), target: Some("/run"), fs: Some("tmpfs"), flags: RUN_TMPFS_FLAGS, data: None,
        },
        RootAction::Mkdir { path, mode } => SyscallRequest::Mkdir { path, mode },
        RootAction::BindLower => SyscallRequest::Mount {
            source: Some("/"), target: Some("/run/overlay/lower"), fs: None, flags: LOWER_BIND_FLAGS, data: None,
        },
        RootAction::RemountLowerReadonly => SyscallRequest::Mount {
            source: None, target: Some("/run/overlay/lower"), fs: None, flags: LOWER_READONLY_REMOUNT_FLAGS, data: None,
        },
        RootAction::MountOverlay => SyscallRequest::Mount {
            source: Some("rootfs"), target: Some("/run/overlay/merged"), fs: Some("overlay"),
            flags: OVERLAY_ROOT_FLAGS, data: Some(OVERLAY_OPTIONS),
        },
        RootAction::PivotRoot => SyscallRequest::PivotRoot {
            new_root: "/run/overlay/merged", put_old: "/run/overlay/merged/oldroot",
        },
        RootAction::ChdirRoot => SyscallRequest::Chdir { path: "/" },
        RootAction::MoveMount { src, dst, .. } => SyscallRequest::Mount {
            source: Some(src), target: Some(dst), fs: None, flags: MOVE_MOUNT_FLAGS, data: None,
        },
        RootAction::UmountOldRoot => SyscallRequest::Umount { path: "/oldroot", flags: OLDROOT_UMOUNT_FLAGS },
        RootAction::Rmdir(path) => SyscallRequest::Rmdir { path },
    }
}

/// The bytes of the C string that stands for `s`: its UTF-8 bytes and a
/// terminating NUL; `None` when `s` holds a NUL byte of its own.
pub open spec fn spec_c_string(s: Seq<u8>) -> Option<Seq<u8>> {
    if s.contains(0u8) {
        None
    } else {
        Some(s.push(0u8))
    }
}

/// Turns `value` into the bytes of a NUL-terminated C string; a string that
/// holds a NUL byte is refused with `EINVAL`.
pub fn c_string_bytes(value: &str) -> (r: Result<Vec<u8>, Errno>)
    ensures
        match spec_c_string(value.spec_bytes()) {
            Some(c) => r matches Ok(b) && b@ == c,
            None => r == Err::<Vec<u8>, Errno>(Errno(EINVAL)),
        },
{
    let bytes = value.as_bytes();
    let n = bytes.len();
    let mut out: Vec<u8> = Vec::new();
    let mut i: usize = 0;
    while i < n
        invariant
            n == bytes@.len(),
            bytes@ == value.spec_bytes(),
            i <= n,
            out@ == bytes@.subrange(0, i as int),
            !out@.contains(0u8),
        decreases n - i,
    {
        let b = bytes[i];
        if b == 0 {
            assert(bytes@[i as int] == 0u8);
            return Err(Errno(EINVAL));
        }
        out.push(b);
        i = i + 1;
        assert(out@ =~= bytes@.subrange(0, i as int));
    }
    assert(out@ =~= bytes@);
    out.push(0u8);
    Ok(out)
}

/// Turns an optional string into an optional C string, refusing one that
/// holds a NUL byte with `EINVAL`.
pub fn optional_c_string(value: Option<&str>) -> (r: Result<Option<Vec<u8>>, Errno>)
    ensures
        match value {
            None => r matches Ok(None),
            Some(s) => match spec_c_string(s.spec_bytes()) {
                Some(c) => r matches Ok(Some(b)) && b@ == c,
                None => r == Err::<Option<Vec<u8>>, Errno>(Errno(EINVAL)),
            },
        },
{
    match value {
        None => Ok(None),
        Some(s) => match c_string_bytes(s) {
            Ok(b) => Ok(Some(b)),
            Err(e) => Err(e),
        },
    }
}

/// `spec_c_string` lifted to an optional string: an absent string stays
/// absent, a present one is converted; `None` when the conversion fails.
pub open spec fn spec_optional_c_string(value: Option<&str>) -> Option<Option<Seq<u8>>> {
    match value {
        None => Some(None),
        Some(s) => match spec_c_string(s.spec_bytes()) {
            Some(c) => Some(Some(c)),
            None => None,
        },
    }
}

/// The contents of an optional byte buffer.
pub open spec fn optional_bytes(value: Option<Vec<u8>>) -> Option<Seq<u8>> {
    match value {
        None => None,
        Some(b) => Some(b@),
    }
}

/// The arguments of a `mount(2)` call, as C strings ready to be handed over.
#[derive(Debug, PartialEq, Eq)]
pub struct MountCall {
    pub source: Option<Vec<u8>>,
    pub target: Option<Vec<u8>>,
    pub fs: Option<Vec<u8>>,
    pub flags: u64,
    pub data: Option<Vec<u8>>,
}

/// Prepares the arguments of `mount(2)`: each present string becomes a C
/// string. When any of them holds a NUL byte, the call is refused with
/// `EINVAL` before it is made.
pub fn prepare_mount(
    source: Option<&str>,
    target: Option<&str>,
    fs: Option<&str>,
    flags: u64,
    data: Option<&str>,
) -> (r: Result<MountCall, Errno>)
    ensures
        r is Ok <==> (spec_optional_c_string(source) is Some && spec_optional_c_string(target) is Some
            && spec_optional_c_string(fs) is Some && spec_optional_c_string(data) is Some),
        r matches Ok(c) ==> {
            &&& Some(optional_bytes(c.source)) == spec_optional_c_string(source)
            &&& Some(optional_bytes(c.target)) == spec_optional_c_string(target)
            &&& Some(optional_bytes(c.fs)) == spec_optional_c_string(fs)
            &&& c.flags == flags
            &&& Some(optional_bytes(c.data)) == spec_optional_c_string(data)
        },
        r is Err ==> r == Err::<MountCall, Errno>(Errno(EINVAL)),
{
    let source = optional_c_string(source)?;
    let target = optional_c_string(target)?;
    let fs = optional_c_string(fs)?;
    let data = optional_c_string(data)?;
    Ok(MountCall { source, target, fs, flags, data })
}

/// Prepares the path handed to `execv(2)`. A missing argument vector, or a
/// path that holds a NUL byte, is refused with `EINVAL` before the call.
pub fn prepare_exec(path: &str, argv_present: bool) -> (r: Result<Vec<u8>, Errno>)
    ensures
        !argv_present ==> r == Err::<Vec<u8>, Errno>(Errno(EINVAL)),
        argv_present ==> match spec_c_string(path.spec_bytes()) {
            Some(c) => r matches Ok(b) && b@ == c,
            None => r == Err::<Vec<u8>, Errno>(Errno(EINVAL)),
        },
{
    if !argv_present {
        return Err(Errno(EINVAL));
    }
    c_string_bytes(path)
}

/// The device number that `makedev` builds from a major and a minor number:
/// the low 12 bits of the major at bits 8..20, its high 20 bits at bits
/// 44..64, the low 8 bits of the minor at bits 0..8, its high 24 bits at bits
/// 20..44.
pub open spec fn spec_device_number(major: u32, minor: u32) -> u64 {
    ((major as u64 & 0xfff) << 8u64) | ((major as u64 & 0xfffff000) << 32u64) | (minor as u64 & 0xff)
        | ((minor as u64 & 0xffffff00) << 12u64)
}

/// Calls `libc::makedev`, which on Linux combines the major and minor numbers
/// as `spec_device_number` says.
#[verifier::external_body]
fn makedev(major: u32, minor: u32) -> (dev: u64)
    ensures
        dev == spec_device_number(major, minor),
{
    libc::makedev(major, minor)
}

/// The device number of the character device with the given major and minor
/// numbers, as `mknod(2)` takes it.
pub fn device_number(major: u32, minor: u32) -> (dev: u64)
    ensures
        dev == spec_device_number(major, minor),
{
    makedev(major, minor)
}

/// Law: each step makes the system call of the shell script it stands for,
/// with these arguments and flags:
/// `mount --make-private /` (recursive), the tmpfs on `/run`, `mkdir`, the
/// bind mount of `/` on the lower directory and its read-only remount, the
/// overlay mount, `pivot_root`, `cd /`, `mount --move src dst`,
/// `umount -l /oldroot` and `rmdir`.
pub proof fn lemma_steps_make_the_script_calls(
    path: &'static str,
    mode: u32,
    src: &'static str,
    dst: &'static str,
    required: bool,
)
    ensures
        spec_root_action_syscall(RootAction::MakeRootPrivate) == (SyscallRequest::Mount {
            source: None, target: Some("/"), fs: None, flags: MS_REC | MS_PRIVATE, data: None,
        }),
        spec_root_action_syscall(RootAction::MountRunTmpfs) == (SyscallRequest::Mount {
            source: Some("parentfs"), target: Some("/run"), fs: Some("tmpfs"),
            flags: MS_LAZYTIME | MS_NODEV | MS_NOSUID | MS_RELATIME, data: None,
        }),
        spec_root_action_syscall(RootAction::Mkdir { path, mode }) == (SyscallRequest::Mkdir { path, mode }),
        spec_root_action_syscall(RootAction::BindLower) == (SyscallRequest::Mount {
            source: Some("/"), target: Some("/run/overlay/lower"), fs: None, flags: MS_BIND, data: None,
        }),
        spec_root_action_syscall(RootAction::RemountLowerReadonly) == (SyscallRequest::Mount {
            source: None, target: Some("/run/overlay/lower"), fs: None,
            flags: MS_BIND | MS_REMOUNT | MS_RDONLY, data: None,
        }),
        spec_root_action_syscall(RootAction::MountOverlay) == (SyscallRequest::Mount {
            source: Some("rootfs"), target: Some("/run/overlay/merged"), fs: Some("overlay"),
            flags: MS_RELATIME | MS_LAZYTIME, data: Some(OVERLAY_OPTIONS),
        }),
        spec_root_action_syscall(RootAction::PivotRoot) == (SyscallRequest::PivotRoot {
            new_root: "/run/overlay/merged", put_old: "/run/overlay/merged/oldroot",
        }),
        spec_root_action_syscall(RootAction::ChdirRoot) == (SyscallRequest::Chdir { path: "/" }),
        spec_root_action_syscall(RootAction::MoveMount { src, dst, required }) == (SyscallRequest::Mount {
            source: Some(src), target: Some(dst), fs: None, flags: MS_REC | MS_MOVE, data: None,
        }),
        spec_root_action_syscall(RootAction::UmountOldRoot) == (SyscallRequest::Umount {
            path: "/oldroot", flags: MNT_DETACH,
        }),
        spec_root_action_syscall(RootAction::Rmdir(path)) == (SyscallRequest::Rmdir { path }),
{
}

/// Law: a string is refused exactly when it holds a NUL byte; any other
/// string, whatever its length, becomes its bytes followed by one NUL.
pub proof fn lemma_c_string_conversion(s: Seq<u8>)
    ensures
        (forall|i: int| 0 <= i < s.len() ==> s[i] != 0u8) ==> spec_c_string(s) == Some(s.push(0u8)),
        (exists|i: int| 0 <= i < s.len() && s[i] == 0u8) ==> spec_c_string(s) is None,
        spec_c_string(s) matches Some(c) ==> c.len() == s.len() + 1 && c.last() == 0u8
            && c.subrange(0, s.len() as int) == s,
{
    if spec_c_string(s) is Some {
        assert(s.push(0u8).subrange(0, s.len() as int) =~= s);
    }
    if forall|i: int| 0 <= i < s.len() ==> s[i] != 0u8 {
        assert(!s.contains(0u8));
    }
}

/// Law: absent strings stay absent, and a present one is converted as
/// `lemma_c_string_conversion` says.
pub proof fn lemma_optional_c_string_conversion(value: Option<&str>)
    ensures
        value is None ==> spec_optional_c_string(value) == Some(None::<Seq<u8>>),
        value matches Some(s) ==> ((forall|i: int| 0 <= i < s.spec_bytes().len() ==> s.spec_bytes()[i] != 0u8)
            ==> spec_optional_c_string(value) == Some(Some(s.spec_bytes().push(0u8)))),
        value matches Some(s) ==> ((exists|i: int| 0 <= i < s.spec_bytes().len() && s.spec_bytes()[i] == 0u8)
            ==> spec_optional_c_string(value) is None),
{
    if let Some(s) = value {
        lemma_c_string_conversion(s.spec_bytes());
    }
}

} // verus!
