//! The execution engine as a state machine. It says which process to launch
//! or to wait for next and takes back what came of it; launching and waiting
//! themselves are the caller's part.

use crate::ast::CommandLineExpr;
use crate::interpret::{
    interpret_cmdline_expr, lemma_plan_jobs_not_empty, plan_views, spec_plan, JobPlan,
    JobPlanView, ProcessSpec, ProcessSpecView,
};
use vstd::prelude::*;

verus! {

/// Why a command line did not run to its end as asked.
#[derive(Debug, Clone, Copy, PartialEq, Eq, Structural)]
pub enum ExecError {
    /// A file of a redirection could not be opened or created.
    Io,
    /// A process could not be launched.
    Spawn,
    /// Waiting for a process failed.
    Wait,
}

/// What the caller is asked to do next.
#[derive(Debug, PartialEq)]
pub enum Action {
    /// Launch this process and do not wait for it.
    Spawn(ProcessSpec),
    /// Wait until the process with this id has ended.
    Wait(u32),
    /// Nothing is left to do: this is the outcome of the line.
    Finish(Result<(), ExecError>),
}

/// The value of an action.
pub enum ActionView {
    Spawn(ProcessSpecView),
    Wait(u32),
    Finish(Result<(), ExecError>),
}

impl View for Action {
    type V = ActionView;

    open spec fn view(&self) -> ActionView {
        match self {
            Action::Spawn(spec) => ActionView::Spawn(spec@),
            Action::Wait(pid) => ActionView::Wait(*pid),
            Action::Finish(outcome) => ActionView::Finish(*outcome),
        }
    }
}

/// What came of the action that was asked for.
#[derive(Debug, Clone, Copy, PartialEq, Eq, Structural)]
pub enum Event {
    /// The process was launched and has this id.
    Spawned(u32),
    /// The process was not launched.
    Failed(ExecError),
    /// Waiting is over; `false` where it failed.
    Waited(bool),
}

/// The state of the engine: the plan of the line and how far it has got.
pub struct Engine {
    plan: Vec<JobPlan>,
    job: usize,
    process: usize,
    pids: Vec<u32>,
    waiting: bool,
    waited: usize,
    outcome: Result<(), ExecError>,
}

/// The value of the engine's state.
pub struct EngineView {
    /// The jobs of the line.
    pub plan: Seq<JobPlanView>,
    /// The number of jobs that are done with.
    pub job: int,
    /// The number of processes of the current job that were launched.
    pub process: int,
    /// The ids of the processes of the current job, in the order of launch.
    pub pids: Seq<u32>,
    /// Whether the current job is launched and waited for.
    pub waiting: bool,
    /// The number of processes of the current job whose end was awaited.
    pub waited: int,
    /// The first failure so far.
    pub outcome: Result<(), ExecError>,
}

impl EngineView {
    /// The state before anything is launched.
    pub open spec fn start(plan: Seq<JobPlanView>) -> EngineView {
        EngineView {
            plan: plan,
            job: 0,
            process: 0,
            pids: Seq::empty(),
            waiting: false,
            waited: 0,
            outcome: Ok(()),
        }
    }

    /// Whether a process of the current job is to be launched.
    pub open spec fn spawning(self) -> bool {
        0 <= self.job < self.plan.len() && !self.waiting && 0 <= self.process
            < self.plan[self.job].processes.len()
    }

    /// Whether a process of the current job is to be waited for.
    pub open spec fn awaiting(self) -> bool {
        0 <= self.job < self.plan.len() && self.waiting && 0 <= self.waited < self.pids.len()
    }

    /// What the caller is asked to do in this state.
    pub open spec fn pending(self) -> ActionView {
        if self.spawning() {
            ActionView::Spawn(self.plan[self.job].processes[self.process])
        } else if self.awaiting() {
            ActionView::Wait(self.pids[self.waited])
        } else {
            ActionView::Finish(self.outcome)
        }
    }

    /// The state with the failure `e` noted: the first failure is kept.
    pub open spec fn record(self, e: ExecError) -> EngineView {
        EngineView { outcome: if self.outcome is Ok { Err(e) } else { self.outcome }, ..self }
    }

    /// The state at the start of the job behind the current one.
    pub open spec fn next_job(self) -> EngineView {
        EngineView {
            job: self.job + 1,
            process: 0,
            pids: Seq::empty(),
            waiting: false,
            waited: 0,
            ..self
        }
    }

    /// The state after `event`.
    ///
    /// While a job is launched: a launched process is noted, and behind the
    /// last one the job is waited for or, where it runs in the background,
    /// left; a failed launch is noted and ends the job, and the line goes on
    /// with the next one. While a job is waited for: a failed wait is noted,
    /// and behind the last process the line goes on with the next job. An
    /// event that answers no pending action changes nothing.
    pub open spec fn step(self, event: Event) -> EngineView {
        if self.spawning() {
            match event {
                Event::Spawned(pid) => {
                    let noted = EngineView { pids: self.pids.push(pid), ..self };
                    if self.process + 1 < self.plan[self.job].processes.len() {
                        EngineView { process: self.process + 1, ..noted }
                    } else if self.plan[self.job].wait {
                        EngineView { waiting: true, waited: 0, ..noted }
                    } else {
                        self.next_job()
                    }
                },
                Event::Failed(e) => self.record(e).next_job(),
                Event::Waited(_) => self,
            }
        } else if self.awaiting() {
            match event {
                Event::Waited(ok) => {
                    let noted = if ok {
                        self
                    } else {
                        self.record(ExecError::Wait)
                    };
                    if self.waited + 1 < self.pids.len() {
                        EngineView { waited: self.waited + 1, ..noted }
                    } else {
                        noted.next_job()
                    }
                },
                _ => self,
            }
        } else {
            self
        }
    }

    /// Whether the state is one that a run from the start can reach: every
    /// job has a process, and the ids noted are those of the processes
    /// launched for the current job.
    pub open spec fn wf(self) -> bool {
        &&& forall|j: int| 0 <= j < self.plan.len() ==> (#[trigger] self.plan[j]).processes.len() >= 1
        &&& 0 <= self.job <= self.plan.len()
        &&& self.job < self.plan.len() ==> if self.waiting {
            &&& self.plan[self.job].wait
            &&& self.pids.len() == self.plan[self.job].processes.len()
            &&& 0 <= self.waited < self.pids.len()
        } else {
            &&& 0 <= self.process < self.plan[self.job].processes.len()
            &&& self.pids.len() == self.process
        }
    }
}

impl View for Engine {
    type V = EngineView;

    closed spec fn view(&self) -> EngineView {
        EngineView {
            plan: plan_views(self.plan@),
            job: self.job as int,
            process: self.process as int,
            pids: self.pids@,
            waiting: self.waiting,
            waited: self.waited as int,
            outcome: self.outcome,
        }
    }
}

impl Engine {
    /// The engine for `expr`, before anything is launched.
    pub fn new(expr: &CommandLineExpr) -> (engine: Engine)
        ensures
            engine@ == EngineView::start(spec_plan(expr@)),
            engine@.wf(),
    {
        proof {
            lemma_plan_jobs_not_empty(expr@);
        }
        Engine {
            plan: interpret_cmdline_expr(expr),
            job: 0,
            process: 0,
            pids: Vec::new(),
            waiting: false,
            waited: 0,
            outcome: Ok(()),
        }
    }

    /// What the caller is asked to do now.
    pub fn pending(&self) -> (action: Action)
        ensures
            action@ == self@.pending(),
    {
        if self.job < self.plan.len() {
            let current = &self.plan[self.job];
            assert(current@ == self@.plan[self@.job]);
            if !self.waiting && self.process < current.processes.len() {
                assert(current.processes@[self.process as int]@ == current@.processes[self.process as int]);
                return Action::Spawn(current.processes[self.process].clone());
            }
            if self.waiting && self.waited < self.pids.len() {
                return Action::Wait(self.pids[self.waited]);
            }
        }
        Action::Finish(self.outcome)
    }

    fn record(&mut self, e: ExecError)
        ensures
            final(self)@ == old(self)@.record(e),
    {
        if self.outcome.is_ok() {
            self.outcome = Err(e);
        }
    }

    fn next_job(&mut self)
        requires
            old(self).job < old(self).plan.len(),
        ensures
            final(self)@ == old(self)@.next_job(),
    {
        self.job = self.job + 1;
        self.process = 0;
        self.pids = Vec::new();
        self.waiting = false;
        self.waited = 0;
    }

    /// Takes what came of the pending action and says what to do next.
    pub fn step(&mut self, event: Event) -> (action: Action)
        ensures
            final(self)@ == old(self)@.step(event),
            action@ == final(self)@.pending(),
    {
        if self.job < self.plan.len() {
            let count = self.plan[self.job].processes.len();
            let wait = self.plan[self.job].wait;
            assert(self.plan@[self.job as int]@ == self@.plan[self@.job]);
            if !self.waiting && self.process < count {
                match event {
                    Event::Spawned(pid) => {
                        if self.process + 1 < count {
                            self.pids.push(pid);
                            self.process = self.process + 1;
                        } else if wait {
                            self.pids.push(pid);
                            self.waiting = true;
                            self.waited = 0;
                        } else {
                            self.next_job();
                        }
                    },
                    Event::Failed(e) => {
                        self.record(e);
                        self.next_job();
                    },
                    Event::Waited(_) => {},
                }
            } else if self.waiting && self.waited < self.pids.len() {
                match event {
                    Event::Waited(ok) => {
                        if !ok {
                            self.record(ExecError::Wait);
                        }
                        if self.waited + 1 < self.pids.len() {
                            self.waited = self.waited + 1;
                        } else {
                            self.next_job();
                        }
                    },
                    _ => {},
                }
            }
        }
        self.pending()
    }
}

/// What `interpret` makes of a command line: the engine that runs it.
pub fn interpret(expr: &CommandLineExpr) -> (engine: Engine)
    ensures
        engine@ == EngineView::start(spec_plan(expr@)),
        engine@.wf(),
{
    Engine::new(expr)
}

/// Every state of a run is well formed: a step keeps what the start
/// establishes.
pub proof fn lemma_step_keeps_wf(state: EngineView, event: Event)
    requires
        state.wf(),
    ensures
        state.step(event).wf(),
{
}

/// Sequencing: while a process of a job that is waited for has not been
/// awaited, no process is launched and the line does not end. Behind every
/// answer but the last the next thing asked for is the next wait.
pub proof fn lemma_wait_comes_before_launch(state: EngineView, event: Event)
    requires
        state.wf(),
        state.awaiting(),
    ensures
        state.pending() == ActionView::Wait(state.pids[state.waited]),
        state.waited + 1 < state.pids.len() ==> state.step(event).pending() is Wait,
        !(event is Waited) ==> state.step(event) == state,
{
}

/// A job that is waited for is waited for in full: once its last process is
/// launched, the end of its first process is asked for.
pub proof fn lemma_foreground_job_is_awaited(state: EngineView, pid: u32)
    requires
        state.wf(),
        state.spawning(),
        state.process + 1 == state.plan[state.job].processes.len(),
        state.plan[state.job].wait,
    ensures
        state.step(Event::Spawned(pid)).awaiting(),
        state.step(Event::Spawned(pid)).pending() == ActionView::Wait(
            state.step(Event::Spawned(pid)).pids[0],
        ),
        state.step(Event::Spawned(pid)).pids == state.pids.push(pid),
{
}

/// Backgrounding: no process of a job that runs in the background is ever
/// waited for. Once its last process is launched, the line goes on with the
/// next job or ends.
pub proof fn lemma_background_job_is_left(state: EngineView, pid: u32)
    requires
        state.wf(),
        state.spawning(),
        state.process + 1 == state.plan[state.job].processes.len(),
        !state.plan[state.job].wait,
    ensures
        !(state.step(Event::Spawned(pid)).pending() is Wait),
        state.step(Event::Spawned(pid)) == state.next_job(),
        state.job + 1 < state.plan.len() ==> state.step(Event::Spawned(pid)).pending()
            == ActionView::Spawn(state.plan[state.job + 1].processes[0]),
        state.job + 1 == state.plan.len() ==> state.step(Event::Spawned(pid)).pending()
            == ActionView::Finish(state.outcome),
{
}

/// The processes of a job are launched from left to right: behind a launch
/// that is not the last of its job the next process of the job is asked for.
pub proof fn lemma_launch_goes_left_to_right(state: EngineView, pid: u32)
    requires
        state.wf(),
        state.spawning(),
        state.process + 1 < state.plan[state.job].processes.len(),
    ensures
        state.pending() == ActionView::Spawn(state.plan[state.job].processes[state.process]),
        state.step(Event::Spawned(pid)).pending() == ActionView::Spawn(
            state.plan[state.job].processes[state.process + 1],
        ),
{
}

/// A failure does not end the line: a launch that fails ends its job alone,
/// and the first failure of the line is the one that is kept.
pub proof fn lemma_failure_goes_on(state: EngineView, e: ExecError)
    requires
        state.wf(),
        state.spawning(),
    ensures
        state.step(Event::Failed(e)).job == state.job + 1,
        state.step(Event::Failed(e)).outcome == if state.outcome is Ok {
            Err::<(), ExecError>(e)
        } else {
            state.outcome
        },
        state.job + 1 < state.plan.len() ==> state.step(Event::Failed(e)).pending()
            == ActionView::Spawn(state.plan[state.job + 1].processes[0]),
{
}

/// The state after a row of events, the first of them first.
pub open spec fn feed(state: EngineView, events: Seq<Event>) -> EngineView
    decreases events.len(),
{
    if events.len() == 0 {
        state
    } else {
        feed(state, events.drop_last()).step(events.last())
    }
}

/// The events of `count` launches that give the ids `pids` in order.
pub open spec fn launches(pids: Seq<u32>, count: int) -> Seq<Event> {
    Seq::new(count as nat, |k: int| Event::Spawned(pids[k]))
}

/// The events of `count` waits that all end well.
pub open spec fn waits(count: int) -> Seq<Event> {
    Seq::new(count as nat, |k: int| Event::Waited(true))
}

/// Whether the state is that at the start of a job: nothing of the job is
/// launched yet.
pub open spec fn at_job_start(state: EngineView) -> bool {
    state.wf() && state.spawning() && state.process == 0 && state.waited == 0
}

/// The engine of a command line starts at the start of the first job.
pub proof fn lemma_line_starts_at_first_job(line: crate::ast::CommandLineView)
    ensures
        at_job_start(EngineView::start(spec_plan(line))),
{
    lemma_plan_jobs_not_empty(line);
}

/// A job of n commands is launched as n processes from left to right: after
/// `count` launches, fewer than n, the next process of the job is asked for,
/// and the ids so far are kept in the order of launch.
pub proof fn lemma_job_is_launched_in_order(state: EngineView, pids: Seq<u32>, count: int)
    requires
        at_job_start(state),
        0 <= count < state.plan[state.job].processes.len(),
        count <= pids.len(),
    ensures
        feed(state, launches(pids, count)) == (EngineView {
            process: count,
            pids: pids.take(count),
            ..state
        }),
        feed(state, launches(pids, count)).pending() == ActionView::Spawn(
            state.plan[state.job].processes[count],
        ),
    decreases count,
{
    if count == 0 {
        assert(pids.take(0) =~= state.pids);
    } else {
        lemma_job_is_launched_in_order(state, pids, count - 1);
        assert(launches(pids, count).drop_last() =~= launches(pids, count - 1));
        assert(pids.take(count - 1).push(pids[count - 1]) =~= pids.take(count));
    }
}

/// Once all n processes of a job are launched, no more are: a job that is
/// waited for goes on with the wait for its first process, and a job that
/// runs in the background is left at once.
pub proof fn lemma_job_is_launched_in_full(state: EngineView, pids: Seq<u32>)
    requires
        at_job_start(state),
        pids.len() == state.plan[state.job].processes.len(),
    ensures
        state.plan[state.job].wait ==> feed(state, launches(pids, pids.len() as int)) == (EngineView {
            process: pids.len() - 1,
            pids: pids,
            waiting: true,
            ..state
        }),
        !state.plan[state.job].wait ==> feed(state, launches(pids, pids.len() as int))
            == state.next_job(),
{
    let n = pids.len() as int;
    lemma_job_is_launched_in_order(state, pids, n - 1);
    assert(launches(pids, n).drop_last() =~= launches(pids, n - 1));
    assert(pids.take(n - 1).push(pids[n - 1]) =~= pids);
}

/// Sequencing: a job that is waited for is waited for process by process in
/// the order of launch, and the line goes on with the next job only when
/// the end of every one has been awaited.
pub proof fn lemma_job_is_awaited_in_order(state: EngineView, count: int)
    requires
        state.wf(),
        state.awaiting(),
        state.waited == 0,
        0 <= count <= state.pids.len(),
    ensures
        count < state.pids.len() ==> feed(state, waits(count)) == (EngineView {
            waited: count,
            ..state
        }) && feed(state, waits(count)).pending() == ActionView::Wait(state.pids[count]),
        count == state.pids.len() ==> feed(state, waits(count)) == state.next_job(),
    decreases count,
{
    if count > 0 {
        lemma_job_is_awaited_in_order(state, count - 1);
        assert(waits(count).drop_last() =~= waits(count - 1));
    }
}

/// A job in which nothing fails runs from its first launch to the start of
/// the next job: n launches, then, where it is waited for, n waits.
pub proof fn lemma_job_runs(state: EngineView, pids: Seq<u32>)
    requires
        at_job_start(state),
        pids.len() == state.plan[state.job].processes.len(),
    ensures
        state.plan[state.job].wait ==> feed(
            feed(state, launches(pids, pids.len() as int)),
            waits(pids.len() as int),
        ) == state.next_job(),
        !state.plan[state.job].wait ==> feed(state, launches(pids, pids.len() as int))
            == state.next_job(),
        state.next_job().wf(),
        state.next_job().job < state.plan.len() ==> at_job_start(state.next_job()),
        state.next_job().job == state.plan.len() ==> state.next_job().pending()
            == ActionView::Finish(state.outcome),
{
    lemma_job_is_launched_in_full(state, pids);
    if state.plan[state.job].wait {
        let launched = feed(state, launches(pids, pids.len() as int));
        lemma_job_is_awaited_in_order(launched, pids.len() as int);
        assert(launched.next_job() == state.next_job());
    }
}

} // verus!
