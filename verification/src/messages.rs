use vstd::prelude::*;
use crate::errors::{errno_description, Errno};

verus! {

/// The message logged once the root has been replaced.
pub const ROOT_REPLACED_MESSAGE: &'static str = "rootfs replaced with overlayfs!";

/// The message logged when the root replacement stopped with `error`.
pub fn replace_failed_message(error: &str) -> (m: String)
    ensures
        m@ == "failed to replace rootfs: "@ + error@,
{
    let mut m = String::from_str("failed to replace rootfs: ");
    m.append(error);
    m
}

/// The message logged before executing the init candidate `path`.
pub fn trying_message(path: &str) -> (m: String)
    ensures
        m@ == "trying to execute \""@ + path@ + "\""@,
{
    let mut m = String::from_str("trying to execute \"");
    m.append(path);
    m.append("\"");
    m
}

/// The message logged when executing `path` failed with an error that is not
/// retried, `description` being the text that describes the error number.
pub fn exec_failed_message(path: &str, description: &str) -> (m: String)
    ensures
        m@ == "execution \""@ + path@ + "\" failed: "@ + description@,
{
    let mut m = String::from_str("execution \"");
    m.append(path);
    m.append("\" failed: ");
    m.append(description);
    m
}

/// The message logged when executing `path` failed with `error`, which is
/// not retried; the error number is described by the C library (see
/// `errno_description`).
pub fn exec_failed_report(path: &str, error: Errno) -> (m: String)
    ensures
        exists|description: Seq<char>| m@ == "execution \""@ + path@ + "\" failed: "@ + description,
{
    let description = errno_description(error);
    exec_failed_message(path, description.as_str())
}

} // verus!
