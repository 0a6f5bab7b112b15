//! The built-in directives and the classification of a parsed line.
use vstd::prelude::*;
use vstd::string::*;
use crate::tokens::views;

verus! {

broadcast use vstd::string::group_string_axioms;

/// Who the interpreter is: shown by `help`, fixed for the whole session.
#[derive(Debug, Clone)]
pub struct Identity {
    pub name: String,
    pub version: String,
}

impl View for Identity {
    type V = (Seq<char>, Seq<char>);

    open spec fn view(&self) -> (Seq<char>, Seq<char>) {
        (self.name@, self.version@)
    }
}

/// The identity this interpreter ships with.
pub fn setup() -> (r: Identity)
    ensures
        r.name@ == "CrabShell🦀"@,
        r.version@ == "0.1.0"@,
{
    Identity { name: String::from_str("CrabShell🦀"), version: String::from_str("0.1.0") }
}

/// The text that `help` prints for an identity with this name and version.
pub open spec fn banner_text(name: Seq<char>, version: Seq<char>) -> Seq<char> {
    "Welcome to "@ + name + ",\n version: "@ + version + ",\n A crappy little shell"@
}

/// Whether `part` occurs in `whole` as a run of consecutive characters.
pub open spec fn occurs_in(part: Seq<char>, whole: Seq<char>) -> bool {
    exists|i: int| 0 <= i && i + part.len() <= whole.len() && #[trigger] whole.subrange(i, i + part.len()) == part
}

/// The help banner for `id`.
pub fn help_banner(id: &Identity) -> (r: String)
    ensures
        r@ == banner_text(id.name@, id.version@),
{
    let r = String::from_str("Welcome to ");
    let r = r.concat(id.name.as_str());
    let r = r.concat(",\n version: ");
    let r = r.concat(id.version.as_str());
    r.concat(",\n A crappy little shell")
}

/// The diagnostic for a `cd` without a directory.
pub fn missing_dir_message() -> (r: String)
    ensures
        r@ == missing_dir_text(),
{
    String::from_str("Please specify a directory")
}

/// The text of the diagnostic for a `cd` without a directory.
pub open spec fn missing_dir_text() -> Seq<char> {
    "Please specify a directory"@
}

/// What one input line asks for.
#[derive(Debug, PartialEq, Eq)]
pub enum Command {
    /// A blank line: nothing to do.
    Empty,
    /// `exit`: end the session with status 0.
    Exit,
    /// `help`: print the banner.
    Help,
    /// `cd` with a directory.
    ChangeDir(String),
    /// `cd` alone.
    MissingDir,
    /// An external program and its argument vector, the name first.
    External(Vec<String>),
}

/// The mathematical form of a [`Command`].
pub ghost enum CommandView {
    Empty,
    Exit,
    Help,
    ChangeDir(Seq<char>),
    MissingDir,
    External(Seq<Seq<char>>),
}

impl View for Command {
    type V = CommandView;

    open spec fn view(&self) -> CommandView {
        match self {
            Command::Empty => CommandView::Empty,
            Command::Exit => CommandView::Exit,
            Command::Help => CommandView::Help,
            Command::ChangeDir(p) => CommandView::ChangeDir(p@),
            Command::MissingDir => CommandView::MissingDir,
            Command::External(v) => CommandView::External(views(v@)),
        }
    }
}

/// What the tokens of a line ask for: a built-in when the first token names
/// one exactly, otherwise an external program.
pub open spec fn command_of(toks: Seq<Seq<char>>) -> CommandView {
    if toks.len() == 0 {
        CommandView::Empty
    } else if toks[0] == "exit"@ {
        CommandView::Exit
    } else if toks[0] == "help"@ {
        CommandView::Help
    } else if toks[0] == "cd"@ {
        if toks.len() < 2 {
            CommandView::MissingDir
        } else {
            CommandView::ChangeDir(toks[1])
        }
    } else {
        CommandView::External(toks)
    }
}

/// Classifies the tokens of one line.
pub fn classify(toks: Vec<String>) -> (r: Command)
    ensures
        r@ == command_of(views(toks@)),
{
    if toks.len() == 0 {
        return Command::Empty;
    }
    let first = &toks[0];
    assert(views(toks@)[0] == first@);
    if *first == String::from_str("exit") {
        Command::Exit
    } else if *first == String::from_str("help") {
        Command::Help
    } else if *first == String::from_str("cd") {
        if toks.len() < 2 {
            Command::MissingDir
        } else {
            assert(views(toks@)[1] == toks@[1]@);
            Command::ChangeDir(toks[1].clone())
        }
    } else {
        Command::External(toks)
    }
}

} // verus!
