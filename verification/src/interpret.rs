//! From a command line to the processes that realise it: what each process
//! is launched with, how the processes of a job are piped together, and
//! which jobs are waited for.

use crate::ast::{
    texts, CommandExpr, CommandLineExpr, CommandLineOp, CommandLineView, CommandOp, CommandView,
    JobExpr, JobView, SimpleCmdExpr, SimpleCmdView,
};
use vstd::prelude::*;

verus! {

/// Where a standard stream of a process is bound.
#[derive(Debug, PartialEq)]
pub enum Stream {
    /// The stream of the shell itself.
    Terminal,
    /// The file of this name.
    File(String),
    /// The pipe to the neighbour in the job.
    Pipe,
}

/// The value of a stream binding.
pub enum StreamView {
    Terminal,
    File(Seq<char>),
    Pipe,
}

impl View for Stream {
    type V = StreamView;

    open spec fn view(&self) -> StreamView {
        match self {
            Stream::Terminal => StreamView::Terminal,
            Stream::File(name) => StreamView::File(name@),
            Stream::Pipe => StreamView::Pipe,
        }
    }
}

/// What one process is launched with.
#[derive(Debug, PartialEq)]
pub struct ProcessSpec {
    /// The path of the program.
    pub program: String,
    /// The arguments behind the path.
    pub args: Vec<String>,
    /// The file that is opened for the process, and for which stream.
    pub redirect: Option<(CommandOp, String)>,
    /// Whether standard input is the pipe from the process before it.
    pub piped_in: bool,
    /// Whether standard output is the pipe to the process behind it.
    pub piped_out: bool,
}

/// The value of a process specification.
pub struct ProcessSpecView {
    pub program: Seq<char>,
    pub args: Seq<Seq<char>>,
    pub redirect: Option<(CommandOp, Seq<char>)>,
    pub piped_in: bool,
    pub piped_out: bool,
}

impl ProcessSpecView {
    /// Standard input: the pipe where there is one, else the file that is
    /// opened for reading, else the terminal.
    pub open spec fn stdin(self) -> StreamView {
        if self.piped_in {
            StreamView::Pipe
        } else {
            match self.redirect {
                Some((CommandOp::RedirectIn, name)) => StreamView::File(name),
                _ => StreamView::Terminal,
            }
        }
    }

    /// Standard output: the pipe where there is one, else the file that is
    /// opened for writing, else the terminal.
    pub open spec fn stdout(self) -> StreamView {
        if self.piped_out {
            StreamView::Pipe
        } else {
            match self.redirect {
                Some((CommandOp::RedirectOut, name)) => StreamView::File(name),
                _ => StreamView::Terminal,
            }
        }
    }
}

impl View for ProcessSpec {
    type V = ProcessSpecView;

    open spec fn view(&self) -> ProcessSpecView {
        ProcessSpecView {
            program: self.program@,
            args: texts(self.args@),
            redirect: match self.redirect {
                Some((op, name)) => Some((op, name@)),
                None => None,
            },
            piped_in: self.piped_in,
            piped_out: self.piped_out,
        }
    }
}

/// A copy of `strings`.
fn clone_strings(strings: &Vec<String>) -> (copy: Vec<String>)
    ensures
        texts(copy@) == texts(strings@),
{
    let mut copy: Vec<String> = Vec::new();
    let mut i: usize = 0;
    while i < strings.len()
        invariant
            i <= strings.len(),
            copy.len() == i,
            forall|k: int| 0 <= k < i ==> copy@[k]@ == strings@[k]@,
        decreases strings.len() - i,
    {
        copy.push(strings[i].clone());
        i = i + 1;
    }
    assert(texts(copy@) =~= texts(strings@));
    copy
}

impl Clone for ProcessSpec {
    fn clone(&self) -> (copy: ProcessSpec)
        ensures
            copy@ == self@,
    {
        ProcessSpec {
            program: self.program.clone(),
            args: clone_strings(&self.args),
            redirect: match &self.redirect {
                Some((op, name)) => Some((*op, name.clone())),
                None => None,
            },
            piped_in: self.piped_in,
            piped_out: self.piped_out,
        }
    }
}

impl ProcessSpec {
    /// Where standard input is bound.
    pub fn stdin(&self) -> (stream: Stream)
        ensures
            stream@ == self@.stdin(),
    {
        if self.piped_in {
            Stream::Pipe
        } else {
            match &self.redirect {
                Some((CommandOp::RedirectIn, name)) => Stream::File(name.clone()),
                _ => Stream::Terminal,
            }
        }
    }

    /// Where standard output is bound.
    pub fn stdout(&self) -> (stream: Stream)
        ensures
            stream@ == self@.stdout(),
    {
        if self.piped_out {
            Stream::Pipe
        } else {
            match &self.redirect {
                Some((CommandOp::RedirectOut, name)) => Stream::File(name.clone()),
                _ => Stream::Terminal,
            }
        }
    }
}

/// The process of a simple command: its path and arguments, both streams
/// left at the terminal.
pub open spec fn spec_simple_process(simple: SimpleCmdView) -> ProcessSpecView {
    match simple {
        SimpleCmdView::Exe(path) => ProcessSpecView {
            program: path,
            args: Seq::empty(),
            redirect: None,
            piped_in: false,
            piped_out: false,
        },
        SimpleCmdView::ExeWithArgs(path, args) => ProcessSpecView {
            program: path,
            args: args,
            redirect: None,
            piped_in: false,
            piped_out: false,
        },
    }
}

/// The process of a command: that of its simple command, with the file of
/// the redirection where there is one.
pub open spec fn spec_command_process(command: CommandView) -> ProcessSpecView {
    match command {
        CommandView::Plain(simple) => spec_simple_process(simple),
        CommandView::Redirected(simple, op, name) => ProcessSpecView {
            redirect: Some((op, name)),
            ..spec_simple_process(simple)
        },
    }
}

/// The processes of a job from left to right: each one but the last writes
/// to a pipe, and each one behind a pipe reads from it.
pub open spec fn spec_job_processes(job: JobView, piped_in: bool) -> Seq<ProcessSpecView>
    decreases job,
{
    match job {
        JobView::Single(command) => seq![
            ProcessSpecView { piped_in: piped_in, piped_out: false, ..spec_command_process(command) },
        ],
        JobView::Pipeline(command, rest) => seq![
            ProcessSpecView { piped_in: piped_in, piped_out: true, ..spec_command_process(command) },
        ] + spec_job_processes(*rest, true),
    }
}

/// The views of a sequence of process specifications.
pub open spec fn process_views(specs: Seq<ProcessSpec>) -> Seq<ProcessSpecView> {
    specs.map_values(|p: ProcessSpec| p@)
}

/// What a simple command is launched with.
pub fn interpret_simplecmd_expr(expr: &SimpleCmdExpr) -> (spec: ProcessSpec)
    ensures
        spec@ == spec_simple_process(expr@),
{
    match expr {
        SimpleCmdExpr::Exe(path) => {
            let args: Vec<String> = Vec::new();
            assert(texts(args@) =~= Seq::<Seq<char>>::empty());
            ProcessSpec { program: path.clone(), args, redirect: None, piped_in: false, piped_out: false }
        },
        SimpleCmdExpr::ExeWithArgs(path, args) => ProcessSpec {
            program: path.clone(),
            args: clone_strings(args),
            redirect: None,
            piped_in: false,
            piped_out: false,
        },
    }
}

/// What a command is launched with: its redirection is noted, the file is
/// not touched.
pub fn interpret_cmd_expr(expr: &CommandExpr) -> (spec: ProcessSpec)
    ensures
        spec@ == spec_command_process(expr@),
{
    match expr {
        CommandExpr::Plain(simple) => interpret_simplecmd_expr(simple),
        CommandExpr::Redirected(simple, op, name) => {
            let mut spec = interpret_simplecmd_expr(simple);
            spec.redirect = Some((*op, name.clone()));
            spec
        },
    }
}

/// What the processes of a job are launched with, from left to right.
pub fn interpret_job_expr(expr: &JobExpr) -> (specs: Vec<ProcessSpec>)
    ensures
        process_views(specs@) == spec_job_processes(expr@, false),
{
    let mut specs: Vec<ProcessSpec> = Vec::new();
    let mut inner = expr;
    let mut piped_in = false;
    assert(process_views(specs@) =~= Seq::<ProcessSpecView>::empty());
    loop
        invariant_except_break
            process_views(specs@) + spec_job_processes(inner@, piped_in) == spec_job_processes(
                expr@,
                false,
            ),
        ensures
            process_views(specs@) == spec_job_processes(expr@, false),
        decreases inner,
    {
        let ghost before = process_views(specs@);
        match inner {
            JobExpr::Single(command) => {
                let mut spec = interpret_cmd_expr(command);
                spec.piped_in = piped_in;
                specs.push(spec);
                assert(process_views(specs@) =~= before + spec_job_processes(inner@, piped_in));
                break ;
            },
            JobExpr::Pipeline(command, _, rest) => {
                let mut spec = interpret_cmd_expr(command);
                spec.piped_in = piped_in;
                spec.piped_out = true;
                specs.push(spec);
                assert(process_views(specs@) + spec_job_processes((**rest)@, true) =~= before
                    + spec_job_processes(inner@, piped_in));
                piped_in = true;
                inner = rest;
            },
        }
    }
    specs
}

/// The processes of one job, and whether the line goes on only when they
/// have ended.
#[derive(Debug, PartialEq)]
pub struct JobPlan {
    pub processes: Vec<ProcessSpec>,
    pub wait: bool,
}

/// The value of a job's plan.
pub struct JobPlanView {
    pub processes: Seq<ProcessSpecView>,
    pub wait: bool,
}

impl View for JobPlan {
    type V = JobPlanView;

    open spec fn view(&self) -> JobPlanView {
        JobPlanView { processes: process_views(self.processes@), wait: self.wait }
    }
}

/// The views of a sequence of plans.
pub open spec fn plan_views(plans: Seq<JobPlan>) -> Seq<JobPlanView> {
    plans.map_values(|p: JobPlan| p@)
}

/// Whether the job before the operator is waited for: behind `;` it is,
/// behind `&` it is not.
pub open spec fn waits_for(op: CommandLineOp) -> bool {
    op == CommandLineOp::Sequence
}

/// The jobs of a command line in the order in which they are launched. A
/// job that nothing follows is waited for, as is one before `;`.
pub open spec fn spec_plan(line: CommandLineView) -> Seq<JobPlanView>
    decreases line,
{
    match line {
        CommandLineView::Single(job) => seq![
            JobPlanView { processes: spec_job_processes(job, false), wait: true },
        ],
        CommandLineView::WithTrailingOp(job, op) => seq![
            JobPlanView { processes: spec_job_processes(job, false), wait: waits_for(op) },
        ],
        CommandLineView::Chain(job, op, rest) => seq![
            JobPlanView { processes: spec_job_processes(job, false), wait: waits_for(op) },
        ] + spec_plan(*rest),
    }
}

fn op_waits(op: &CommandLineOp) -> (wait: bool)
    ensures
        wait == waits_for(*op),
{
    match op {
        CommandLineOp::Sequence => true,
        CommandLineOp::Background => false,
    }
}

/// The jobs of a command line, each with what its processes are launched
/// with, in the order in which they are launched.
pub fn interpret_cmdline_expr(expr: &CommandLineExpr) -> (plans: Vec<JobPlan>)
    ensures
        plan_views(plans@) == spec_plan(expr@),
{
    let mut plans: Vec<JobPlan> = Vec::new();
    let mut inner = expr;
    assert(plan_views(plans@) =~= Seq::<JobPlanView>::empty());
    loop
        invariant_except_break
            plan_views(plans@) + spec_plan(inner@) == spec_plan(expr@),
        ensures
            plan_views(plans@) == spec_plan(expr@),
        decreases inner,
    {
        let ghost before = plan_views(plans@);
        match inner {
            CommandLineExpr::Single(job) => {
                plans.push(JobPlan { processes: interpret_job_expr(job), wait: true });
                assert(plan_views(plans@) =~= before + spec_plan(inner@));
                break ;
            },
            CommandLineExpr::WithTrailingOp(job, op) => {
                plans.push(JobPlan { processes: interpret_job_expr(job), wait: op_waits(op) });
                assert(plan_views(plans@) =~= before + spec_plan(inner@));
                break ;
            },
            CommandLineExpr::Chain(job, op, rest) => {
                plans.push(JobPlan { processes: interpret_job_expr(job), wait: op_waits(op) });
                assert(plan_views(plans@) + spec_plan((**rest)@) =~= before + spec_plan(inner@));
                inner = rest;
            },
        }
    }
    plans
}

/// A job has as many processes as commands, and they are chained by pipes:
/// every process but the first reads from a pipe, every process but the last
/// writes to one, and the rest of each is that of its command alone.
pub proof fn lemma_job_wiring(job: JobView, piped_in: bool)
    ensures
        spec_job_processes(job, piped_in).len() >= 1,
        forall|k: int|
            0 <= k < spec_job_processes(job, piped_in).len() ==> {
                let p = #[trigger] spec_job_processes(job, piped_in)[k];
                &&& p.piped_in == (k > 0 || piped_in)
                &&& p.piped_out == (k < spec_job_processes(job, piped_in).len() - 1)
            },
    decreases job,
{
    match job {
        JobView::Single(command) => {},
        JobView::Pipeline(command, rest) => {
            lemma_job_wiring(*rest, true);
            let all = spec_job_processes(job, piped_in);
            let tail = spec_job_processes(*rest, true);
            assert forall|k: int| 0 <= k < all.len() implies {
                let p = #[trigger] all[k];
                &&& p.piped_in == (k > 0 || piped_in)
                &&& p.piped_out == (k < all.len() - 1)
            } by {
                if k > 0 {
                    assert(all[k] == tail[k - 1]);
                }
            }
        },
    }
}

/// Only the last process of a job can write to the terminal, and only the
/// first can read from it.
pub proof fn lemma_job_terminal(job: JobView, k: int)
    requires
        0 <= k < spec_job_processes(job, false).len(),
    ensures
        k < spec_job_processes(job, false).len() - 1 ==> spec_job_processes(job, false)[k].stdout()
            == StreamView::Pipe,
        k > 0 ==> spec_job_processes(job, false)[k].stdin() == StreamView::Pipe,
{
    lemma_job_wiring(job, false);
}

/// Every job of a line has a process.
pub proof fn lemma_plan_jobs_not_empty(line: CommandLineView)
    ensures
        spec_plan(line).len() >= 1,
        forall|j: int| 0 <= j < spec_plan(line).len() ==> (#[trigger] spec_plan(line)[j]).processes.len() >= 1,
    decreases line,
{
    match line {
        CommandLineView::Single(job) => {
            lemma_job_wiring(job, false);
        },
        CommandLineView::WithTrailingOp(job, op) => {
            lemma_job_wiring(job, false);
        },
        CommandLineView::Chain(job, op, rest) => {
            lemma_job_wiring(job, false);
            lemma_plan_jobs_not_empty(*rest);
            let all = spec_plan(line);
            let tail = spec_plan(*rest);
            assert forall|j: int| 0 <= j < all.len() implies (#[trigger] all[j]).processes.len() >= 1 by {
                if j > 0 {
                    assert(all[j] == tail[j - 1]);
                }
            }
        },
    }
}

} // verus!
