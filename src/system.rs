//! The calls into the operating system that the interpreter makes itself,
//! through nix.
use vstd::prelude::*;
use nix::errno::Errno;
use nix::sys::wait::{waitpid, WaitPidFlag, WaitStatus};
use nix::unistd::{chdir, Pid};
use crate::child::{next_wait_step, ChildState, WaitStep};

verus! {

/// An error number reported by the operating system.
#[verifier::external_type_specification]
#[verifier::external_body]
pub struct ExErrno(Errno);

/// Relies on nix::unistd::chdir, which turns the path into a C string first
/// and fails with EINVAL, without a system call, when it holds a NUL.
#[verifier::external_body]
fn chdir_to(path: &str) -> (r: Result<(), Errno>)
    ensures
        path@.contains('\0') ==> r is Err,
{
    chdir(path)
}

/// Relies on nix::sys::wait::waitpid, asked to report stopped children too;
/// each status is carried over variant for variant.
#[verifier::external_body]
fn waitpid_once(pid: i32) -> (r: Result<ChildState, Errno>) {
    match waitpid(Pid::from_raw(pid), Some(WaitPidFlag::WUNTRACED)) {
        Ok(WaitStatus::Exited(_, code)) => Ok(ChildState::Exited(code)),
        Ok(WaitStatus::Signaled(_, sig, _)) => Ok(ChildState::Signaled(sig as i32)),
        Ok(WaitStatus::Stopped(_, sig)) => Ok(ChildState::Stopped(sig as i32)),
        Ok(WaitStatus::PtraceEvent(..)) => Ok(ChildState::Traced),
        Ok(WaitStatus::PtraceSyscall(_)) => Ok(ChildState::Traced),
        Ok(WaitStatus::Continued(_)) => Ok(ChildState::Continued),
        Ok(WaitStatus::StillAlive) => Ok(ChildState::StillAlive),
        Err(e) => Err(e),
    }
}

/// Changes the interpreter's working directory to `path`. A path that holds
/// a NUL character names no directory and always fails; otherwise the
/// outcome is the operating system's.
pub fn change_directory(path: &String) -> (r: Result<(), Errno>)
    ensures
        path@.contains('\0') ==> r is Err,
{
    chdir_to(path.as_str())
}

/// Waits once for the child `pid` to change state, and decides what follows
/// from what was reported.
pub fn poll_child(pid: i32) -> WaitStep {
    let s = match waitpid_once(pid) {
        Ok(c) => Some(c),
        Err(_) => None,
    };
    next_wait_step(s)
}

} // verus!
