//! The read-dispatch-wait loop as a state machine: the interpreter is told
//! what happened and answers with the next thing to do.
use vstd::prelude::*;
use crate::child::WaitStep;
use crate::command::{
    banner_text, classify, command_of, help_banner, missing_dir_message, missing_dir_text,
    Command, CommandView, Identity,
};
use crate::tokens::{parse_line, tokens_of, views};

verus! {

broadcast use vstd::string::group_string_axioms;

/// Where the interpreter stands between two events.
#[derive(Debug, PartialEq, Eq)]
pub enum Phase {
    /// Ready to prompt for and read the next line.
    Idle,
    /// A child process was asked for, with this argument vector.
    Launching(Vec<String>),
    /// Waiting for the child with this process id.
    Waiting(i32),
    /// The session is over, with this exit status.
    Finished(i32),
}

/// Something that the surroundings report to the interpreter.
#[derive(Debug, PartialEq, Eq)]
pub enum Event {
    /// The operator entered this line.
    Line(String),
    /// The input has no more lines.
    InputClosed,
    /// A printed text, a report or a change of directory has been carried out.
    Done,
    /// A child process with this id was created.
    ChildStarted(i32),
    /// No child process could be created.
    SpawnFailed,
    /// A wait for the child reported this.
    Waited(WaitStep),
}

/// What the interpreter asks its surroundings to do next.
#[derive(Debug, PartialEq, Eq)]
pub enum Action {
    /// Show the prompt and read one line.
    Prompt,
    /// End the process with this status.
    Terminate(i32),
    /// Write this text to the output stream.
    Print(String),
    /// Write this text to the diagnostic stream.
    Report(String),
    /// Change the working directory to this path.
    ChangeDir(String),
    /// Create a child process that runs this argument vector, found by name
    /// on the search path.
    Spawn(Vec<String>),
    /// Wait for the child with this id.
    Wait(i32),
    /// Report that waiting for the child with this id failed.
    ReportWaitFailure(i32),
}

/// The mathematical form of a [`Phase`].
pub ghost enum PhaseView {
    Idle,
    Launching(Seq<Seq<char>>),
    Waiting(i32),
    Finished(i32),
}

/// The mathematical form of an [`Event`].
pub ghost enum EventView {
    Line(Seq<char>),
    InputClosed,
    Done,
    ChildStarted(i32),
    SpawnFailed,
    Waited(WaitStep),
}

/// The mathematical form of an [`Action`].
pub ghost enum ActionView {
    Prompt,
    Terminate(i32),
    Print(Seq<char>),
    Report(Seq<char>),
    ChangeDir(Seq<char>),
    Spawn(Seq<Seq<char>>),
    Wait(i32),
    ReportWaitFailure(i32),
}

impl View for Phase {
    type V = PhaseView;

    open spec fn view(&self) -> PhaseView {
        match self {
            Phase::Idle => PhaseView::Idle,
            Phase::Launching(v) => PhaseView::Launching(views(v@)),
            Phase::Waiting(p) => PhaseView::Waiting(*p),
            Phase::Finished(c) => PhaseView::Finished(*c),
        }
    }
}

impl View for Event {
    type V = EventView;

    open spec fn view(&self) -> EventView {
        match self {
            Event::Line(l) => EventView::Line(l@),
            Event::InputClosed => EventView::InputClosed,
            Event::Done => EventView::Done,
            Event::ChildStarted(p) => EventView::ChildStarted(*p),
            Event::SpawnFailed => EventView::SpawnFailed,
            Event::Waited(w) => EventView::Waited(*w),
        }
    }
}

impl View for Action {
    type V = ActionView;

    open spec fn view(&self) -> ActionView {
        match self {
            Action::Prompt => ActionView::Prompt,
            Action::Terminate(c) => ActionView::Terminate(*c),
            Action::Print(s) => ActionView::Print(s@),
            Action::Report(s) => ActionView::Report(s@),
            Action::ChangeDir(s) => ActionView::ChangeDir(s@),
            Action::Spawn(v) => ActionView::Spawn(views(v@)),
            Action::Wait(p) => ActionView::Wait(*p),
            Action::ReportWaitFailure(p) => ActionView::ReportWaitFailure(*p),
        }
    }
}

/// The diagnostic for a failed process creation.
pub open spec fn spawn_failure_text() -> Seq<char> {
    "Failure forking process"@
}

/// What a line asks for, when the interpreter is idle.
pub open spec fn on_line(id: (Seq<char>, Seq<char>), line: Seq<char>) -> (PhaseView, ActionView) {
    match command_of(tokens_of(line)) {
        CommandView::Empty => (PhaseView::Idle, ActionView::Prompt),
        CommandView::Exit => (PhaseView::Finished(0), ActionView::Terminate(0)),
        CommandView::Help => (PhaseView::Idle, ActionView::Print(banner_text(id.0, id.1))),
        CommandView::ChangeDir(p) => (PhaseView::Idle, ActionView::ChangeDir(p)),
        CommandView::MissingDir => (PhaseView::Idle, ActionView::Report(missing_dir_text())),
        CommandView::External(argv) => (PhaseView::Launching(argv), ActionView::Spawn(argv)),
    }
}

/// The action that a phase keeps asking for until the event it waits for
/// comes.
pub open spec fn pending_action(p: PhaseView) -> ActionView {
    match p {
        PhaseView::Idle => ActionView::Prompt,
        PhaseView::Launching(argv) => ActionView::Spawn(argv),
        PhaseView::Waiting(pid) => ActionView::Wait(pid),
        PhaseView::Finished(c) => ActionView::Terminate(c),
    }
}

/// The next phase and action, for an interpreter with identity `id` in phase
/// `p` that is told of `e`. An event that the phase does not wait for leaves
/// it as it is.
pub open spec fn transition(id: (Seq<char>, Seq<char>), p: PhaseView, e: EventView) -> (
    PhaseView,
    ActionView,
) {
    match (p, e) {
        (PhaseView::Idle, EventView::Line(l)) => on_line(id, l),
        (PhaseView::Idle, EventView::InputClosed) => (
            PhaseView::Finished(0),
            ActionView::Terminate(0),
        ),
        (PhaseView::Launching(_), EventView::ChildStarted(pid)) => (
            PhaseView::Waiting(pid),
            ActionView::Wait(pid),
        ),
        (PhaseView::Launching(_), EventView::SpawnFailed) => (
            PhaseView::Idle,
            ActionView::Report(spawn_failure_text()),
        ),
        (PhaseView::Waiting(pid), EventView::Waited(WaitStep::Ended)) => (
            PhaseView::Idle,
            ActionView::Prompt,
        ),
        (PhaseView::Waiting(pid), EventView::Waited(WaitStep::Failed)) => (
            PhaseView::Idle,
            ActionView::ReportWaitFailure(pid),
        ),
        _ => (p, pending_action(p)),
    }
}

/// An interpreter session.
#[derive(Debug)]
pub struct Shell {
    pub identity: Identity,
    pub phase: Phase,
}

impl Shell {
    /// A session that is about to prompt for its first line.
    pub fn new(identity: Identity) -> (r: Shell)
        ensures
            r.identity@ == identity@,
            r.phase@ == PhaseView::Idle,
    {
        Shell { identity, phase: Phase::Idle }
    }

    /// The action that the session asks for in its present phase.
    pub fn current_action(&self) -> (r: Action)
        ensures
            r@ == pending_action(self.phase@),
    {
        match &self.phase {
            Phase::Idle => Action::Prompt,
            Phase::Launching(argv) => {
                let a = clone_strings(argv);
                Action::Spawn(a)
            },
            Phase::Waiting(pid) => Action::Wait(*pid),
            Phase::Finished(c) => Action::Terminate(*c),
        }
    }

    fn on_line(&self, line: &String) -> (r: (Phase, Action))
        ensures
            (r.0@, r.1@) == on_line(self.identity@, line@),
    {
        let toks = parse_line(line.as_str());
        match classify(toks) {
            Command::Empty => (Phase::Idle, Action::Prompt),
            Command::Exit => (Phase::Finished(0), Action::Terminate(0)),
            Command::Help => (Phase::Idle, Action::Print(help_banner(&self.identity))),
            Command::ChangeDir(p) => (Phase::Idle, Action::ChangeDir(p)),
            Command::MissingDir => (Phase::Idle, Action::Report(missing_dir_message())),
            Command::External(argv) => {
                let a = clone_strings(&argv);
                (Phase::Launching(argv), Action::Spawn(a))
            },
        }
    }

    /// Takes one event: moves to the next phase and returns the next action,
    /// as `transition` says. The identity never changes.
    pub fn step(&mut self, event: Event) -> (r: Action)
        ensures
            final(self).identity@ == old(self).identity@,
            (final(self).phase@, r@) == transition(old(self).identity@, old(self).phase@, event@),
    {
        let next: (Phase, Action) = match (&self.phase, event) {
            (Phase::Idle, Event::Line(l)) => self.on_line(&l),
            (Phase::Idle, Event::InputClosed) => (Phase::Finished(0), Action::Terminate(0)),
            (Phase::Launching(_), Event::ChildStarted(pid)) => (Phase::Waiting(pid), Action::Wait(pid)),
            (Phase::Launching(_), Event::SpawnFailed) => (
                Phase::Idle,
                Action::Report(String::from_str("Failure forking process")),
            ),
            (Phase::Waiting(pid), Event::Waited(WaitStep::Ended)) => (Phase::Idle, Action::Prompt),
            (Phase::Waiting(pid), Event::Waited(WaitStep::Failed)) => (
                Phase::Idle,
                Action::ReportWaitFailure(*pid),
            ),
            _ => {
                return self.current_action();
            },
        };
        self.phase = next.0;
        next.1
    }
}

/// A copy of a vector of strings.
fn clone_strings(v: &Vec<String>) -> (r: Vec<String>)
    ensures
        views(r@) == views(v@),
{
    let mut r: Vec<String> = Vec::new();
    let mut i: usize = 0;
    while i < v.len()
        invariant
            i <= v@.len(),
            views(r@) == views(v@.subrange(0, i as int)),
        decreases v@.len() - i,
    {
        let ghost before = r@;
        r.push(v[i].clone());
        assert(views(r@) =~= views(before).push(v@[i as int]@));
        assert(v@.subrange(0, i + 1) =~= v@.subrange(0, i as int).push(v@[i as int]));
        assert(views(v@.subrange(0, i + 1)) =~= views(v@.subrange(0, i as int)).push(v@[i as int]@));
        i = i + 1;
    }
    assert(v@.subrange(0, i as int) =~= v@);
    r
}

} // verus!
