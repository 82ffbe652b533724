//! Early-boot root replacement: the plan of mount operations that puts a
//! volatile overlay file system over the original root, the decisions taken on
//! each system call's outcome, and the choice of the real init to hand off to.
//!
//! The system calls themselves are performed by the program around this
//! library; it feeds their outcomes back into the state machines defined here.
pub mod errors;
pub mod overlay_root;
pub mod syscalls;
pub mod launch;
pub mod kmsg;
pub mod tm;
pub mod messages;
