//! What holds of every session, stated over the transition relation.
use vstd::prelude::*;
use crate::child::{is_terminal, step_after, ChildState, WaitStep};
use crate::command::{banner_text, missing_dir_text, occurs_in};
use crate::session::{transition, ActionView, EventView, PhaseView};
use crate::tokens::tokens_of;

verus! {

broadcast use vstd::string::group_string_axioms;

proof fn lemma_builtin_names_differ()
    ensures
        "cd"@ != "exit"@,
        "cd"@ != "help"@,
        "help"@ != "exit"@,
{
    reveal_strlit("cd");
    reveal_strlit("exit");
    reveal_strlit("help");
    assert("cd"@.len() == 2);
    assert("exit"@.len() == 4);
    assert("help"@[0] == 'h');
    assert("exit"@[0] == 'e');
}

/// A line whose first token is `exit` ends the session with status 0, with
/// or without arguments, and an ended session stays ended whatever follows.
pub proof fn lemma_exit_ends_session(id: (Seq<char>, Seq<char>), line: Seq<char>, later: EventView)
    requires
        tokens_of(line).len() > 0,
        tokens_of(line)[0] == "exit"@,
    ensures
        transition(id, PhaseView::Idle, EventView::Line(line)) == (
            PhaseView::Finished(0),
            ActionView::Terminate(0),
        ),
        transition(id, PhaseView::Finished(0), later) == (
            PhaseView::Finished(0),
            ActionView::Terminate(0),
        ),
{
}

/// A line whose first token is `help` prints a banner that holds the name
/// and the version of the interpreter, and starts no process.
pub proof fn lemma_help_shows_identity(id: (Seq<char>, Seq<char>), line: Seq<char>)
    requires
        tokens_of(line).len() > 0,
        tokens_of(line)[0] == "help"@,
    ensures
        transition(id, PhaseView::Idle, EventView::Line(line)) == (
            PhaseView::Idle,
            ActionView::Print(banner_text(id.0, id.1)),
        ),
        occurs_in(id.0, banner_text(id.0, id.1)),
        occurs_in(id.1, banner_text(id.0, id.1)),
{
    lemma_builtin_names_differ();
    let b = banner_text(id.0, id.1);
    let head = "Welcome to "@;
    let mid = ",\n version: "@;
    assert(b.subrange(head.len() as int, head.len() + id.0.len() as int) =~= id.0);
    let k: int = (head.len() + id.0.len() + mid.len()) as int;
    assert(b.subrange(k, k + id.1.len()) =~= id.1);
}

/// A line whose first token is `cd` asks to change to the directory that its
/// second token names; without one it reports the missing directory and asks
/// for no change. Either way the session goes back to prompting.
pub proof fn lemma_cd_targets_first_argument(id: (Seq<char>, Seq<char>), line: Seq<char>)
    requires
        tokens_of(line).len() > 0,
        tokens_of(line)[0] == "cd"@,
    ensures
        tokens_of(line).len() == 1 ==> transition(id, PhaseView::Idle, EventView::Line(line)) == (
            PhaseView::Idle,
            ActionView::Report(missing_dir_text()),
        ),
        tokens_of(line).len() >= 2 ==> transition(id, PhaseView::Idle, EventView::Line(line)) == (
            PhaseView::Idle,
            ActionView::ChangeDir(tokens_of(line)[1]),
        ),
{
    lemma_builtin_names_differ();
}

/// A line that names no built-in starts a child process whose argument
/// vector is the line's tokens, the program name first, and once the child
/// exists the session waits for that child.
pub proof fn lemma_external_runs_tokens(id: (Seq<char>, Seq<char>), line: Seq<char>, pid: i32)
    requires
        tokens_of(line).len() > 0,
        tokens_of(line)[0] != "exit"@,
        tokens_of(line)[0] != "help"@,
        tokens_of(line)[0] != "cd"@,
    ensures
        transition(id, PhaseView::Idle, EventView::Line(line)) == (
            PhaseView::Launching(tokens_of(line)),
            ActionView::Spawn(tokens_of(line)),
        ),
        transition(id, PhaseView::Launching(tokens_of(line)), EventView::ChildStarted(pid)) == (
            PhaseView::Waiting(pid),
            ActionView::Wait(pid),
        ),
{
}

/// While a child runs, the session asks for nothing but another wait for
/// that same child: no prompt comes before a wait has reported the child's
/// end or has itself failed.
pub proof fn lemma_no_prompt_while_child_runs(id: (Seq<char>, Seq<char>), pid: i32, e: EventView)
    requires
        e != EventView::Waited(WaitStep::Ended),
        e != EventView::Waited(WaitStep::Failed),
    ensures
        transition(id, PhaseView::Waiting(pid), e) == (PhaseView::Waiting(pid), ActionView::Wait(pid)),
{
}

/// Once a wait reports that the child exited, with any code, or was killed
/// by any signal, the session prompts again; a failed wait or a failed
/// process creation is reported and the session goes back to prompting too.
pub proof fn lemma_child_end_returns_to_prompt(
    id: (Seq<char>, Seq<char>),
    pid: i32,
    s: ChildState,
    argv: Seq<Seq<char>>,
)
    requires
        is_terminal(s),
    ensures
        transition(id, PhaseView::Waiting(pid), EventView::Waited(step_after(Some(s)))) == (
            PhaseView::Idle,
            ActionView::Prompt,
        ),
        transition(id, PhaseView::Waiting(pid), EventView::Waited(step_after(None))).0
            == PhaseView::Idle,
        transition(id, PhaseView::Launching(argv), EventView::SpawnFailed).0 == PhaseView::Idle,
{
}

/// Entering the same `help` or `cd` line again and again gives the same
/// action every time and leaves the session where it was.
pub proof fn lemma_builtin_repeats_alike(id: (Seq<char>, Seq<char>), line: Seq<char>)
    requires
        tokens_of(line).len() > 0,
        tokens_of(line)[0] == "help"@ || tokens_of(line)[0] == "cd"@,
    ensures
        transition(id, PhaseView::Idle, EventView::Line(line)).0 == PhaseView::Idle,
        transition(id, transition(id, PhaseView::Idle, EventView::Line(line)).0, EventView::Line(line))
            == transition(id, PhaseView::Idle, EventView::Line(line)),
        transition(id, PhaseView::Idle, EventView::Done) == (PhaseView::Idle, ActionView::Prompt),
{
    lemma_builtin_names_differ();
}

} // verus!
