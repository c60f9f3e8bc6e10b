//! The version-control tool as the library sees it: the four steps it is run
//! for, the arguments of each, and what a finished run reports.

use vstd::prelude::*;
use vstd::string::*;

verus! {

/// The steps for which the version-control tool is run, in the order in which
/// a synchronisation takes them.
#[derive(Clone, Copy, Debug, PartialEq, Eq, Structural)]
pub enum GitStep {
    /// Bring the working copy up to date with the remote.
    Update,
    /// Stage every change in the working copy.
    Stage,
    /// Commit what is staged.
    Commit,
    /// Publish the current branch to the remote.
    Publish,
}

/// What a run of the tool left behind: whether it exited with success, and
/// all that it wrote to its two output streams.
#[derive(Debug, PartialEq, Eq)]
pub struct CommandOutcome {
    pub success: bool,
    pub stdout: Vec<u8>,
    pub stderr: Vec<u8>,
}

pub struct CommandOutcomeView {
    pub success: bool,
    pub stdout: Seq<u8>,
    pub stderr: Seq<u8>,
}

impl View for CommandOutcome {
    type V = CommandOutcomeView;

    open spec fn view(&self) -> CommandOutcomeView {
        CommandOutcomeView { success: self.success, stdout: self.stdout@, stderr: self.stderr@ }
    }
}

/// The arguments that the tool is given for a step. Only the commit depends
/// on the entry: it carries the commit message.
pub open spec fn step_args(step: GitStep, message: Seq<char>) -> Seq<Seq<char>> {
    match step {
        GitStep::Update => seq!["pull"@, "origin"@, "main"@],
        GitStep::Stage => seq!["add"@, "-A"@],
        GitStep::Commit => seq!["commit"@, "--all"@, "-m"@, message],
        GitStep::Publish => seq!["push"@, "origin"@, "HEAD"@],
    }
}

/// The parts of a text list, with one space between neighbours.
pub open spec fn joined(parts: Seq<Seq<char>>) -> Seq<char>
    decreases parts.len(),
{
    if parts.len() == 0 {
        Seq::empty()
    } else if parts.len() == 1 {
        parts[0]
    } else {
        joined(parts.drop_last()) + seq![' '] + parts.last()
    }
}

/// A command as a reader would type it: the tool's name, then its arguments.
pub open spec fn command_line_text(args: Seq<Seq<char>>) -> Seq<char> {
    "git "@ + joined(args)
}

impl GitStep {
    /// The arguments of this step, for a commit with the given message.
    pub fn args(self, message: &str) -> (args: Vec<String>)
        ensures
            args.deep_view() == step_args(self, message@),
    {
        let mut args: Vec<String> = Vec::new();
        match self {
            GitStep::Update => {
                args.push(String::from_str("pull"));
                args.push(String::from_str("origin"));
                args.push(String::from_str("main"));
            },
            GitStep::Stage => {
                args.push(String::from_str("add"));
                args.push(String::from_str("-A"));
            },
            GitStep::Commit => {
                args.push(String::from_str("commit"));
                args.push(String::from_str("--all"));
                args.push(String::from_str("-m"));
                args.push(String::from_str(message));
            },
            GitStep::Publish => {
                args.push(String::from_str("push"));
                args.push(String::from_str("origin"));
                args.push(String::from_str("HEAD"));
            },
        }
        args
    }
}

/// Writes a command out as one line.
pub fn command_line(args: &Vec<String>) -> (line: String)
    ensures
        line@ == command_line_text(args.deep_view()),
{
    let mut line = String::from_str("git ");
    let mut i: usize = 0;
    while i < args.len()
        invariant
            i <= args.len(),
            line@ == "git "@ + joined(args.deep_view().take(i as int)),
        decreases args.len() - i,
    {
        proof {
            let before = args.deep_view().take(i as int);
            let after = args.deep_view().take(i + 1);
            assert(after.drop_last() =~= before);
            reveal_strlit(" ");
        }
        if i > 0 {
            line.append(" ");
        }
        line.append(args[i].as_str());
        i += 1;
    }
    assert(args.deep_view().take(i as int) =~= args.deep_view());
    line
}

} // verus!
