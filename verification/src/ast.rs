//! The command tree that parsing builds.
//!
//! ```text
//! command-line   := job ';' command-line | job ';' | job '&' command-line | job '&' | job
//! job            := command '|' job | command
//! command        := simple-command '<' filename | simple-command '>' filename | simple-command
//! simple-command := token token*
//! ```

use vstd::prelude::*;

verus! {

/// What joins a job to the rest of the line.
#[derive(Debug, Clone, Copy, PartialEq, Eq, Structural)]
pub enum CommandLineOp {
    /// `&`: the line goes on while the job runs.
    Background,
    /// `;`: the line goes on when the job has ended.
    Sequence,
}

/// What joins the commands of a job.
#[derive(Debug, Clone, Copy, PartialEq, Eq, Structural)]
pub enum JobOp {
    Pipe,
}

/// Which stream of a command is bound to a file.
#[derive(Debug, Clone, Copy, PartialEq, Eq, Structural)]
pub enum CommandOp {
    /// `<`: standard input is read from the file.
    RedirectIn,
    /// `>`: standard output is written to the file.
    RedirectOut,
}

/// An executable path with its arguments, if it has any.
#[derive(Debug, PartialEq)]
pub enum SimpleCmdExpr {
    Exe(String),
    ExeWithArgs(String, Vec<String>),
}

/// A simple command, with or without a redirection.
#[derive(Debug, PartialEq)]
pub enum CommandExpr {
    Plain(Box<SimpleCmdExpr>),
    Redirected(Box<SimpleCmdExpr>, CommandOp, String),
}

/// One command, or a command piped into the rest of a job.
#[derive(Debug, PartialEq)]
pub enum JobExpr {
    Single(Box<CommandExpr>),
    Pipeline(Box<CommandExpr>, JobOp, Box<JobExpr>),
}

/// One job, a job with an operator behind it, or a job joined to the rest of
/// the line.
#[derive(Debug, PartialEq)]
pub enum CommandLineExpr {
    Single(Box<JobExpr>),
    WithTrailingOp(Box<JobExpr>, CommandLineOp),
    Chain(Box<JobExpr>, CommandLineOp, Box<CommandLineExpr>),
}

/// The value of a simple command.
pub enum SimpleCmdView {
    Exe(Seq<char>),
    ExeWithArgs(Seq<char>, Seq<Seq<char>>),
}

/// The value of a command.
pub enum CommandView {
    Plain(SimpleCmdView),
    Redirected(SimpleCmdView, CommandOp, Seq<char>),
}

/// The value of a job.
pub enum JobView {
    Single(CommandView),
    Pipeline(CommandView, Box<JobView>),
}

/// The value of a command line.
pub enum CommandLineView {
    Single(JobView),
    WithTrailingOp(JobView, CommandLineOp),
    Chain(JobView, CommandLineOp, Box<CommandLineView>),
}

/// The texts of a sequence of strings.
pub open spec fn texts(strings: Seq<String>) -> Seq<Seq<char>> {
    strings.map_values(|s: String| s@)
}

impl View for SimpleCmdExpr {
    type V = SimpleCmdView;

    open spec fn view(&self) -> SimpleCmdView {
        match self {
            SimpleCmdExpr::Exe(path) => SimpleCmdView::Exe(path@),
            SimpleCmdExpr::ExeWithArgs(path, args) => SimpleCmdView::ExeWithArgs(path@, texts(args@)),
        }
    }
}

impl View for CommandExpr {
    type V = CommandView;

    open spec fn view(&self) -> CommandView {
        match self {
            CommandExpr::Plain(simple) => CommandView::Plain((**simple).view()),
            CommandExpr::Redirected(simple, op, file) => CommandView::Redirected(
                (**simple).view(),
                *op,
                file@,
            ),
        }
    }
}

impl View for JobExpr {
    type V = JobView;

    open spec fn view(&self) -> JobView
        decreases self,
    {
        match self {
            JobExpr::Single(command) => JobView::Single((**command).view()),
            JobExpr::Pipeline(command, _, rest) => JobView::Pipeline(
                (**command).view(),
                Box::new((**rest).view()),
            ),
        }
    }
}

impl View for CommandLineExpr {
    type V = CommandLineView;

    open spec fn view(&self) -> CommandLineView
        decreases self,
    {
        match self {
            CommandLineExpr::Single(job) => CommandLineView::Single((**job).view()),
            CommandLineExpr::WithTrailingOp(job, op) => CommandLineView::WithTrailingOp(
                (**job).view(),
                *op,
            ),
            CommandLineExpr::Chain(job, op, rest) => CommandLineView::Chain(
                (**job).view(),
                *op,
                Box::new((**rest).view()),
            ),
        }
    }
}

} // verus!
