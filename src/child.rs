//! What the interpreter learns of a child process while it waits for it, and
//! what it decides from that.
use vstd::prelude::*;

verus! {

/// A change of state that waiting reported for a child process.
#[derive(PartialEq, Eq, Structural, Clone, Copy, Debug)]
pub enum ChildState {
    /// It ran to its end with this exit code.
    Exited(i32),
    /// A signal with this number ended it.
    Signaled(i32),
    /// A signal with this number stopped it.
    Stopped(i32),
    /// It stopped under a tracer.
    Traced,
    /// A stopped child went on running.
    Continued,
    /// Nothing changed yet.
    StillAlive,
}

/// What to do after one wait.
#[derive(PartialEq, Eq, Structural, Clone, Copy, Debug)]
pub enum WaitStep {
    /// The child still runs: wait again.
    Pending,
    /// The child has exited or was killed: the wait is over.
    Ended,
    /// Waiting itself failed: report it and give up on the child.
    Failed,
}

/// Whether a child in this state will never run again.
pub open spec fn is_terminal(s: ChildState) -> bool {
    s is Exited || s is Signaled
}

/// The step that follows a wait which reported `s`, or failed when `s` is
/// `None`.
pub open spec fn step_after(s: Option<ChildState>) -> WaitStep {
    match s {
        None => WaitStep::Failed,
        Some(c) => if is_terminal(c) {
            WaitStep::Ended
        } else {
            WaitStep::Pending
        },
    }
}

/// Decides what follows a wait: the wait ends when the child exited, with
/// any code, or was ended by any signal; a stopped, traced or continued child
/// is waited for again.
pub fn next_wait_step(s: Option<ChildState>) -> (r: WaitStep)
    ensures
        r == step_after(s),
{
    match s {
        None => WaitStep::Failed,
        Some(ChildState::Exited(_)) => WaitStep::Ended,
        Some(ChildState::Signaled(_)) => WaitStep::Ended,
        Some(_) => WaitStep::Pending,
    }
}

} // verus!
